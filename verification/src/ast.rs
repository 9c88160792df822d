//! The input syntax model: a module body made of declaration items, function
//! declarations with ordered parameter lists, and the opaque pieces (type
//! annotations, body text) that this pass carries through without
//! interpreting. Each executable type has a mathematical view used by the
//! contracts.

use vstd::prelude::*;

verus! {

/// A source location, carried for diagnostics only.
#[derive(Clone, Copy, PartialEq, Eq, Structural, Debug)]
pub struct Span {
    pub lo: u64,
    pub hi: u64,
}

/// A parameter's type annotation. The scan never interprets it; only the
/// context-identifier resolver looks inside, and all it asks is whether the
/// annotation is a generic type application and what its arguments are named.
#[derive(Clone, PartialEq, Eq, Debug)]
pub enum TypeAnn {
    /// A generic type application `base<args...>`.
    Generic { base: String, args: Vec<String>, span: Span },
    /// Any other shape of type annotation.
    Other { span: Span },
}

#[verifier::ext_equal]
pub enum TypeAnnV {
    Generic { base: Seq<char>, args: Seq<Seq<char>>, span: Span },
    Other { span: Span },
}

impl View for TypeAnn {
    type V = TypeAnnV;

    open spec fn view(&self) -> TypeAnnV {
        match self {
            TypeAnn::Generic { base, args, span } => TypeAnnV::Generic {
                base: base@,
                args: args@.map_values(|s: String| s@),
                span: *span,
            },
            TypeAnn::Other { span } => TypeAnnV::Other { span: *span },
        }
    }
}

/// A parameter's binding pattern: either a single identifier, or some
/// structural pattern that this pass rejects.
#[derive(Clone, PartialEq, Eq, Debug)]
pub enum Pat {
    Ident { name: String, span: Span },
    /// A destructuring or otherwise non-identifier pattern.
    Other { span: Span },
}

#[verifier::ext_equal]
pub enum PatV {
    Ident { name: Seq<char>, span: Span },
    Other { span: Span },
}

impl View for Pat {
    type V = PatV;

    open spec fn view(&self) -> PatV {
        match self {
            Pat::Ident { name, span } => PatV::Ident { name: name@, span: *span },
            Pat::Other { span } => PatV::Other { span: *span },
        }
    }
}

/// A named, typed parameter: a binding pattern plus its type annotation.
#[derive(Clone, PartialEq, Eq, Debug)]
pub struct TypedArg {
    pub pat: Pat,
    pub ty: TypeAnn,
    pub span: Span,
}

#[verifier::ext_equal]
pub struct TypedArgV {
    pub pat: PatV,
    pub ty: TypeAnnV,
    pub span: Span,
}

impl View for TypedArg {
    type V = TypedArgV;

    open spec fn view(&self) -> TypedArgV {
        TypedArgV { pat: self.pat@, ty: self.ty@, span: self.span }
    }
}

/// One parameter of a function declaration.
#[derive(Clone, PartialEq, Eq, Debug)]
pub enum Param {
    Typed(TypedArg),
    /// A receiver (`self`-like) parameter; its span is kept for diagnostics.
    Receiver(Span),
}

#[verifier::ext_equal]
pub enum ParamV {
    Typed(TypedArgV),
    Receiver(Span),
}

impl View for Param {
    type V = ParamV;

    open spec fn view(&self) -> ParamV {
        match self {
            Param::Typed(t) => ParamV::Typed(t@),
            Param::Receiver(span) => ParamV::Receiver(*span),
        }
    }
}

/// A function declaration: its name, ordered parameters, the span of its
/// signature, and an opaque body payload carried through unchanged.
#[derive(Clone, PartialEq, Eq, Debug)]
pub struct FnDecl {
    pub ident: String,
    pub params: Vec<Param>,
    pub sig_span: Span,
    pub body: String,
}

#[verifier::ext_equal]
pub struct FnDeclV {
    pub ident: Seq<char>,
    pub params: Seq<ParamV>,
    pub sig_span: Span,
    pub body: Seq<char>,
}

impl View for FnDecl {
    type V = FnDeclV;

    open spec fn view(&self) -> FnDeclV {
        FnDeclV {
            ident: self.ident@,
            params: self.params@.map_values(|p: Param| p@),
            sig_span: self.sig_span,
            body: self.body@,
        }
    }
}

/// One top-level item of a module body.
#[derive(Clone, PartialEq, Eq, Debug)]
pub enum Item {
    Fn(FnDecl),
    /// Any non-function item (a type, a constant, ...); only its span is kept.
    Other(Span),
}

#[verifier::ext_equal]
pub enum ItemV {
    Fn(FnDeclV),
    Other(Span),
}

impl View for Item {
    type V = ItemV;

    open spec fn view(&self) -> ItemV {
        match self {
            Item::Fn(f) => ItemV::Fn(f@),
            Item::Other(span) => ItemV::Other(*span),
        }
    }
}

/// A module declaration: its name, its own span, and its body — `None` for a
/// forward declaration that carries no body.
#[derive(Clone, PartialEq, Eq, Debug)]
pub struct ItemMod {
    pub ident: String,
    pub span: Span,
    pub content: Option<Vec<Item>>,
}

#[verifier::ext_equal]
pub struct ItemModV {
    pub ident: Seq<char>,
    pub span: Span,
    pub content: Option<Seq<ItemV>>,
}

impl View for ItemMod {
    type V = ItemModV;

    open spec fn view(&self) -> ItemModV {
        ItemModV {
            ident: self.ident@,
            span: self.span,
            content: match &self.content {
                Some(items) => Some(items@.map_values(|it: Item| it@)),
                None => None,
            },
        }
    }
}

/// A classified argument: the parameter's identifier plus the raw typed
/// parameter it came from, carried through for later stages.
#[derive(Clone, PartialEq, Eq, Debug)]
pub struct IxArg {
    pub name: String,
    pub raw_arg: TypedArg,
}

#[verifier::ext_equal]
pub struct IxArgV {
    pub name: Seq<char>,
    pub raw_arg: TypedArgV,
}

impl View for IxArg {
    type V = IxArgV;

    open spec fn view(&self) -> IxArgV {
        IxArgV { name: self.name@, raw_arg: self.raw_arg@ }
    }
}

/// One assembled instruction record: the handler's name, its context
/// argument, the resolved context identifier, the remaining arguments in
/// order, and the raw declaration kept verbatim.
#[derive(Clone, PartialEq, Eq, Debug)]
pub struct Ix {
    pub raw_method: FnDecl,
    pub ident: String,
    pub ctx: IxArg,
    pub args: Vec<IxArg>,
    pub anchor_ident: String,
}

#[verifier::ext_equal]
pub struct IxV {
    pub raw_method: FnDeclV,
    pub ident: Seq<char>,
    pub ctx: IxArgV,
    pub args: Seq<IxArgV>,
    pub anchor_ident: Seq<char>,
}

impl View for Ix {
    type V = IxV;

    open spec fn view(&self) -> IxV {
        IxV {
            raw_method: self.raw_method@,
            ident: self.ident@,
            ctx: self.ctx@,
            args: self.args@.map_values(|a: IxArg| a@),
            anchor_ident: self.anchor_ident@,
        }
    }
}

/// The view of a vector of classified arguments.
pub open spec fn ix_args_view(v: Vec<IxArg>) -> Seq<IxArgV> {
    v@.map_values(|a: IxArg| a@)
}

/// The view of a vector of instruction records.
pub open spec fn ixs_view(v: Vec<Ix>) -> Seq<IxV> {
    v@.map_values(|x: Ix| x@)
}

} // verus!
