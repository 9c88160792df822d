//! The executable scan, verified against the model in `crate::model`: the
//! context-identifier resolver, the per-function parameter pass, and the
//! whole-module pass that assembles the instruction records.

use vstd::prelude::*;
use crate::ast::{
    TypeAnn, Pat, TypedArg, Param, FnDecl, Item, ItemMod, IxArg, Ix, ParamV, FnDeclV, ItemV,
    IxArgV, IxV, ix_args_view, ixs_view,
};
use crate::error::{ErrorKind, ParseError};
use crate::model::{
    classify_param, classify_params, spec_parse_args, resolve_ctx_ident, process_fn, fns_of,
    scan_fns, spec_parse,
};

verus! {

fn clone_pat(p: &Pat) -> (r: Pat)
    ensures
        r@ == p@,
{
    match p {
        Pat::Ident { name, span } => Pat::Ident { name: name.clone(), span: *span },
        Pat::Other { span } => Pat::Other { span: *span },
    }
}

fn clone_type_ann(t: &TypeAnn) -> (r: TypeAnn)
    ensures
        r@ == t@,
{
    match t {
        TypeAnn::Generic { base, args, span } => {
            let mut args2: Vec<String> = Vec::new();
            let mut i: usize = 0;
            while i < args.len()
                invariant
                    i <= args.len(),
                    args2@.len() == i,
                    forall|j: int| 0 <= j < i ==> args2@[j] == args@[j],
                decreases args.len() - i,
            {
                args2.push(args[i].clone());
                i += 1;
            }
            proof {
                assert(args2@ =~= args@);
            }
            TypeAnn::Generic { base: base.clone(), args: args2, span: *span }
        },
        TypeAnn::Other { span } => TypeAnn::Other { span: *span },
    }
}

fn clone_typed_arg(t: &TypedArg) -> (r: TypedArg)
    ensures
        r@ == t@,
{
    TypedArg { pat: clone_pat(&t.pat), ty: clone_type_ann(&t.ty), span: t.span }
}

fn clone_param(p: &Param) -> (r: Param)
    ensures
        r@ == p@,
{
    match p {
        Param::Typed(t) => Param::Typed(clone_typed_arg(t)),
        Param::Receiver(span) => Param::Receiver(*span),
    }
}

fn clone_fn_decl(f: &FnDecl) -> (r: FnDecl)
    ensures
        r@ == f@,
{
    let mut params2: Vec<Param> = Vec::new();
    let mut i: usize = 0;
    while i < f.params.len()
        invariant
            i <= f.params.len(),
            params2@.len() == i,
            forall|j: int| 0 <= j < i ==> params2@[j]@ == f.params@[j]@,
        decreases f.params.len() - i,
    {
        params2.push(clone_param(&f.params[i]));
        i += 1;
    }
    proof {
        assert(params2@.map_values(|p: Param| p@) =~= f.params@.map_values(|p: Param| p@));
    }
    let r = FnDecl {
        ident: f.ident.clone(),
        params: params2,
        sig_span: f.sig_span,
        body: f.body.clone(),
    };
    proof {
        assert(r@ =~= f@);
    }
    r
}

/// Unfolding step for `classify_params` over a growing prefix.
proof fn lemma_classify_take_step(ps: Seq<ParamV>, i: int)
    requires
        0 <= i < ps.len(),
    ensures
        classify_params(ps.take(i + 1)) == (match classify_params(ps.take(i)) {
            Err(e) => Err::<Seq<IxArgV>, ParseError>(e),
            Ok(xs) => match classify_param(ps[i]) {
                Err(e) => Err(e),
                Ok(a) => Ok(xs.push(a)),
            },
        }),
{
    assert(ps.take(i + 1).drop_last() =~= ps.take(i));
    assert(ps.take(i + 1).last() == ps[i]);
}

/// Once some prefix of the parameter list fails to classify, the whole list
/// fails with the same (first) error.
proof fn lemma_classify_prefix_err(ps: Seq<ParamV>, j: int)
    requires
        0 <= j <= ps.len(),
        classify_params(ps.take(j)) is Err,
    ensures
        classify_params(ps) == classify_params(ps.take(j)),
    decreases ps.len() - j,
{
    if j == ps.len() {
        assert(ps.take(j) =~= ps);
    } else {
        lemma_classify_take_step(ps, j);
        lemma_classify_prefix_err(ps, j + 1);
    }
}

/// Unfolding step for `fns_of` over a growing prefix of the module body.
proof fn lemma_fns_of_take_step(items: Seq<ItemV>, i: int)
    requires
        0 <= i < items.len(),
    ensures
        fns_of(items.take(i + 1)) == (match items[i] {
            ItemV::Fn(f) => fns_of(items.take(i)).push(f),
            ItemV::Other(_) => fns_of(items.take(i)),
        }),
{
    assert(items.take(i + 1).drop_last() =~= items.take(i));
    assert(items.take(i + 1).last() == items[i]);
}

/// Unfolding step for `scan_fns` at the back of the function sequence.
proof fn lemma_scan_fns_push(fs: Seq<FnDeclV>, f: FnDeclV)
    ensures
        scan_fns(fs.push(f)) == (match scan_fns(fs) {
            Err(e) => Err::<Seq<IxV>, ParseError>(e),
            Ok(ixs) => match process_fn(f) {
                Err(e) => Err(e),
                Ok(ix) => Ok(ixs.push(ix)),
            },
        }),
{
    assert(fs.push(f).drop_last() =~= fs);
    assert(fs.push(f).last() == f);
}

/// Once the functions in some prefix of the module body fail to process, the
/// whole module fails with the same (first) error.
proof fn lemma_scan_items_prefix_err(items: Seq<ItemV>, j: int)
    requires
        0 <= j <= items.len(),
        scan_fns(fns_of(items.take(j))) is Err,
    ensures
        scan_fns(fns_of(items)) == scan_fns(fns_of(items.take(j))),
    decreases items.len() - j,
{
    if j == items.len() {
        assert(items.take(j) =~= items);
    } else {
        lemma_fns_of_take_step(items, j);
        match items[j] {
            ItemV::Fn(f) => {
                lemma_scan_fns_push(fns_of(items.take(j)), f);
            },
            ItemV::Other(_) => {},
        }
        lemma_scan_items_prefix_err(items, j + 1);
    }
}

/// Resolves the identifier of the capability-set structure named by the
/// context parameter's type annotation: the annotation must be a generic
/// type application with exactly one type argument.
pub fn ctx_accounts_ident(raw_arg: &TypedArg) -> (r: Result<String, ParseError>)
    ensures
        match r {
            Ok(s) => resolve_ctx_ident(raw_arg@.ty) == Ok::<Seq<char>, ParseError>(s@),
            Err(e) => resolve_ctx_ident(raw_arg@.ty) == Err::<Seq<char>, ParseError>(e),
        },
{
    match &raw_arg.ty {
        TypeAnn::Generic { base: _, args, span } => {
            if args.len() == 1 {
                Ok(args[0].clone())
            } else {
                Err(
                    ParseError {
                        kind: ErrorKind::ContextIdentifierResolutionFailure,
                        span: *span,
                    },
                )
            }
        },
        TypeAnn::Other { span } => Err(
            ParseError { kind: ErrorKind::ContextIdentifierResolutionFailure, span: *span },
        ),
    }
}

/// Classifies a handler's parameters and splits off the leading context
/// argument. Parameters are validated left to right and the first invalid
/// one aborts the pass; a handler with no parameters at all is rejected with
/// `EmptyParameterList` at its signature's span.
pub fn parse_args(method: &FnDecl) -> (r: Result<(IxArg, Vec<IxArg>), ParseError>)
    ensures
        match r {
            Ok(p) => spec_parse_args(method@) matches Ok(q) && q.0 == p.0@ && q.1 == ix_args_view(
                p.1,
            ),
            Err(e) => spec_parse_args(method@) == Err::<(IxArgV, Seq<IxArgV>), ParseError>(e),
        },
{
    let ghost psv = method@.params;
    let mut out: Vec<IxArg> = Vec::new();
    let mut i: usize = 0;
    proof {
        assert(psv.take(0) =~= Seq::<ParamV>::empty());
        assert(ix_args_view(out) =~= Seq::<IxArgV>::empty());
    }
    while i < method.params.len()
        invariant
            i <= psv.len(),
            psv == method@.params,
            method.params@.len() == psv.len(),
            classify_params(psv.take(i as int)) == Ok::<Seq<IxArgV>, ParseError>(
                ix_args_view(out),
            ),
        decreases psv.len() - i,
    {
        match &method.params[i] {
            Param::Receiver(span) => {
                let e = ParseError {
                    kind: ErrorKind::ReceiverParameterNotAllowed,
                    span: *span,
                };
                proof {
                    lemma_classify_take_step(psv, i as int);
                    lemma_classify_prefix_err(psv, i as int + 1);
                }
                return Err(e);
            },
            Param::Typed(t) => {
                match &t.pat {
                    Pat::Ident { name, span: _ } => {
                        let arg = IxArg { name: name.clone(), raw_arg: clone_typed_arg(t) };
                        proof {
                            lemma_classify_take_step(psv, i as int);
                            assert(ix_args_view(out).push(arg@) =~= out@.push(arg).map_values(
                                |a: IxArg| a@,
                            ));
                        }
                        out.push(arg);
                    },
                    Pat::Other { span } => {
                        let e = ParseError {
                            kind: ErrorKind::UnsupportedParameterPattern,
                            span: *span,
                        };
                        proof {
                            lemma_classify_take_step(psv, i as int);
                            lemma_classify_prefix_err(psv, i as int + 1);
                        }
                        return Err(e);
                    },
                }
            },
        }
        i += 1;
    }
    proof {
        assert(psv.take(psv.len() as int) =~= psv);
    }
    if out.len() == 0 {
        return Err(ParseError { kind: ErrorKind::EmptyParameterList, span: method.sig_span });
    }
    let ghost xs = ix_args_view(out);
    let ctx = out.remove(0);
    proof {
        assert(ix_args_view(out) =~= xs.drop_first());
    }
    Ok((ctx, out))
}

/// Scans a module for its instruction handlers. A module without a body is
/// rejected with `MissingModuleBody` at the module's own span; otherwise
/// every function item of the body, in declaration order, is validated,
/// split, resolved, and assembled into an instruction record, and the first
/// malformed declaration aborts the whole scan.
pub fn parse(program_mod: &ItemMod) -> (r: Result<Vec<Ix>, ParseError>)
    ensures
        match r {
            Ok(ixs) => spec_parse(program_mod@) == Ok::<Seq<IxV>, ParseError>(ixs_view(ixs)),
            Err(e) => spec_parse(program_mod@) == Err::<Seq<IxV>, ParseError>(e),
        },
{
    let items = match &program_mod.content {
        None => {
            return Err(ParseError { kind: ErrorKind::MissingModuleBody, span: program_mod.span });
        },
        Some(items) => items,
    };
    let ghost itv = program_mod@.content->Some_0;
    let mut out: Vec<Ix> = Vec::new();
    let mut i: usize = 0;
    proof {
        assert(itv.take(0) =~= Seq::<ItemV>::empty());
        assert(ixs_view(out) =~= Seq::<IxV>::empty());
    }
    while i < items.len()
        invariant
            i <= itv.len(),
            program_mod@.content == Some(itv),
            items@.len() == itv.len(),
            itv == items@.map_values(|it: Item| it@),
            scan_fns(fns_of(itv.take(i as int))) == Ok::<Seq<IxV>, ParseError>(ixs_view(out)),
        decreases itv.len() - i,
    {
        match &items[i] {
            Item::Fn(f) => {
                let (ctx, args) = match parse_args(f) {
                    Ok(p) => p,
                    Err(e) => {
                        proof {
                            lemma_fns_of_take_step(itv, i as int);
                            lemma_scan_fns_push(fns_of(itv.take(i as int)), f@);
                            lemma_scan_items_prefix_err(itv, i as int + 1);
                        }
                        return Err(e);
                    },
                };
                let anchor_ident = match ctx_accounts_ident(&ctx.raw_arg) {
                    Ok(s) => s,
                    Err(e) => {
                        proof {
                            lemma_fns_of_take_step(itv, i as int);
                            lemma_scan_fns_push(fns_of(itv.take(i as int)), f@);
                            lemma_scan_items_prefix_err(itv, i as int + 1);
                        }
                        return Err(e);
                    },
                };
                let ix = Ix {
                    raw_method: clone_fn_decl(f),
                    ident: f.ident.clone(),
                    ctx,
                    args,
                    anchor_ident,
                };
                proof {
                    assert(ix@ =~= process_fn(f@)->Ok_0);
                    lemma_fns_of_take_step(itv, i as int);
                    lemma_scan_fns_push(fns_of(itv.take(i as int)), f@);
                    assert(ixs_view(out).push(ix@) =~= out@.push(ix).map_values(|x: Ix| x@));
                }
                out.push(ix);
            },
            Item::Other(_) => {
                proof {
                    lemma_fns_of_take_step(itv, i as int);
                }
            },
        }
        i += 1;
    }
    proof {
        assert(itv.take(itv.len() as int) =~= itv);
    }
    Ok(out)
}

} // verus!
