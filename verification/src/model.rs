//! The mathematical model of the scan. These spec functions define, over the
//! views of the syntax types, exactly which result the executable scan
//! returns: which parameters classify, which error comes first, how the
//! context is split off, how the context identifier resolves, and how the
//! instruction records aggregate. The executable functions' contracts and the
//! library's laws are all stated against this model.

use vstd::prelude::*;
use crate::ast::{ParamV, TypedArgV, PatV, TypeAnnV, FnDeclV, ItemV, ItemModV, IxArgV, IxV};
use crate::error::{ErrorKind, ParseError};

verus! {

/// Classifies one parameter: a receiver parameter is rejected at its own
/// span; a typed parameter whose pattern is not a plain identifier is
/// rejected at the pattern's span; otherwise the parameter becomes a
/// classified argument carrying its identifier and the raw typed parameter.
pub open spec fn classify_param(p: ParamV) -> Result<IxArgV, ParseError> {
    match p {
        ParamV::Receiver(span) => Err(
            ParseError { kind: ErrorKind::ReceiverParameterNotAllowed, span },
        ),
        ParamV::Typed(t) => match t.pat {
            PatV::Ident { name, span: _ } => Ok(IxArgV { name, raw_arg: t }),
            PatV::Other { span } => Err(
                ParseError { kind: ErrorKind::UnsupportedParameterPattern, span },
            ),
        },
    }
}

/// Classifies a whole parameter list, left to right, stopping at the first
/// invalid parameter. On success the result has the same length and order as
/// the input.
pub open spec fn classify_params(ps: Seq<ParamV>) -> Result<Seq<IxArgV>, ParseError>
    decreases ps.len(),
{
    if ps.len() == 0 {
        Ok(Seq::empty())
    } else {
        match classify_params(ps.drop_last()) {
            Err(e) => Err(e),
            Ok(xs) => match classify_param(ps.last()) {
                Err(e) => Err(e),
                Ok(a) => Ok(xs.push(a)),
            },
        }
    }
}

/// Classifies a function's parameters and splits off the first classified
/// argument as the context. A function with zero parameters is rejected with
/// `EmptyParameterList` at its signature's span.
pub open spec fn spec_parse_args(f: FnDeclV) -> Result<(IxArgV, Seq<IxArgV>), ParseError> {
    match classify_params(f.params) {
        Err(e) => Err(e),
        Ok(xs) => if xs.len() == 0 {
            Err(ParseError { kind: ErrorKind::EmptyParameterList, span: f.sig_span })
        } else {
            Ok((xs[0], xs.drop_first()))
        },
    }
}

/// Resolves the context identifier from the context parameter's type
/// annotation: the annotation must be a generic type application naming
/// exactly one type argument, and that argument's name is the identifier.
pub open spec fn resolve_ctx_ident(t: TypeAnnV) -> Result<Seq<char>, ParseError> {
    match t {
        TypeAnnV::Generic { base: _, args, span } => if args.len() == 1 {
            Ok(args[0])
        } else {
            Err(ParseError { kind: ErrorKind::ContextIdentifierResolutionFailure, span })
        },
        TypeAnnV::Other { span } => Err(
            ParseError { kind: ErrorKind::ContextIdentifierResolutionFailure, span },
        ),
    }
}

/// Processes one handler function: classify and split its parameters, resolve
/// the context identifier, and assemble the instruction record, keeping the
/// raw declaration verbatim.
pub open spec fn process_fn(f: FnDeclV) -> Result<IxV, ParseError> {
    match spec_parse_args(f) {
        Err(e) => Err(e),
        Ok((ctx, args)) => match resolve_ctx_ident(ctx.raw_arg.ty) {
            Err(e) => Err(e),
            Ok(anchor_ident) => Ok(
                IxV { raw_method: f, ident: f.ident, ctx, args, anchor_ident },
            ),
        },
    }
}

/// The ordered subsequence of function declarations in a module body; every
/// other item kind is dropped, and order among the functions is preserved.
pub open spec fn fns_of(items: Seq<ItemV>) -> Seq<FnDeclV>
    decreases items.len(),
{
    if items.len() == 0 {
        Seq::empty()
    } else {
        let rest = fns_of(items.drop_last());
        match items.last() {
            ItemV::Fn(f) => rest.push(f),
            ItemV::Other(_) => rest,
        }
    }
}

/// Processes a sequence of handler functions in order, stopping at the first
/// failure; on success there is exactly one instruction record per function,
/// in the same order.
pub open spec fn scan_fns(fs: Seq<FnDeclV>) -> Result<Seq<IxV>, ParseError>
    decreases fs.len(),
{
    if fs.len() == 0 {
        Ok(Seq::empty())
    } else {
        match scan_fns(fs.drop_last()) {
            Err(e) => Err(e),
            Ok(ixs) => match process_fn(fs.last()) {
                Err(e) => Err(e),
                Ok(ix) => Ok(ixs.push(ix)),
            },
        }
    }
}

/// The whole scan: a module without a body fails with `MissingModuleBody` at
/// the module's own span; otherwise the function items of the body are
/// processed in declaration order, fail-fast.
pub open spec fn spec_parse(m: ItemModV) -> Result<Seq<IxV>, ParseError> {
    match m.content {
        None => Err(ParseError { kind: ErrorKind::MissingModuleBody, span: m.span }),
        Some(items) => scan_fns(fns_of(items)),
    }
}

} // verus!
