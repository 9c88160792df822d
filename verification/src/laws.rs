//! Laws of the scan, proved once and for all against the model in
//! `crate::model`: a well-formed module scans fully and in order, each error
//! kind arises exactly where the model says, the scan is deterministic, and
//! the first malformed declaration wins.

use vstd::prelude::*;
use crate::ast::{ParamV, TypedArgV, PatV, FnDeclV, ItemModV, IxArgV, IxV, Span};
use crate::error::{ErrorKind, ParseError};
use crate::model::{
    classify_param, classify_params, spec_parse_args, resolve_ctx_ident, process_fn, fns_of,
    scan_fns, spec_parse,
};

verus! {

/// A parameter list whose every parameter classifies successfully classifies
/// as a whole, into one argument per parameter, in the same order.
pub proof fn lemma_classify_all_ok(ps: Seq<ParamV>)
    requires
        forall|j: int| 0 <= j < ps.len() ==> classify_param(#[trigger] ps[j]) is Ok,
    ensures
        classify_params(ps) is Ok,
        classify_params(ps)->Ok_0.len() == ps.len(),
        forall|k: int|
            0 <= k < ps.len() ==> classify_params(ps)->Ok_0[k] == classify_param(
                #[trigger] ps[k],
            )->Ok_0,
    decreases ps.len(),
{
    if ps.len() > 0 {
        let pre = ps.drop_last();
        assert forall|j: int| 0 <= j < pre.len() implies classify_param(
            #[trigger] pre[j],
        ) is Ok by {
            assert(pre[j] == ps[j]);
        }
        lemma_classify_all_ok(pre);
        assert forall|k: int|
            0 <= k < ps.len() implies classify_params(ps)->Ok_0[k] == classify_param(
            #[trigger] ps[k],
        )->Ok_0 by {
            if k < ps.len() - 1 {
                assert(pre[k] == ps[k]);
                assert(classify_params(pre)->Ok_0[k] == classify_param(pre[k])->Ok_0);
            } else {
                assert(ps[k] == ps.last());
            }
        }
    }
}

/// A sequence of handler functions that each process successfully scans as a
/// whole, into one instruction record per function, in the same order.
pub proof fn lemma_scan_fns_all_ok(fs: Seq<FnDeclV>)
    requires
        forall|j: int| 0 <= j < fs.len() ==> process_fn(#[trigger] fs[j]) is Ok,
    ensures
        scan_fns(fs) is Ok,
        scan_fns(fs)->Ok_0.len() == fs.len(),
        forall|k: int|
            0 <= k < fs.len() ==> scan_fns(fs)->Ok_0[k] == process_fn(#[trigger] fs[k])->Ok_0,
    decreases fs.len(),
{
    if fs.len() > 0 {
        let pre = fs.drop_last();
        assert forall|j: int| 0 <= j < pre.len() implies process_fn(#[trigger] pre[j]) is Ok by {
            assert(pre[j] == fs[j]);
        }
        lemma_scan_fns_all_ok(pre);
        assert forall|k: int|
            0 <= k < fs.len() implies scan_fns(fs)->Ok_0[k] == process_fn(
            #[trigger] fs[k],
        )->Ok_0 by {
            if k < fs.len() - 1 {
                assert(pre[k] == fs[k]);
                assert(scan_fns(pre)->Ok_0[k] == process_fn(pre[k])->Ok_0);
            } else {
                assert(fs[k] == fs.last());
            }
        }
    }
}

/// Once some prefix of the function sequence fails to scan, the whole
/// sequence fails with the same (first) error.
proof fn lemma_scan_fns_prefix_err(fs: Seq<FnDeclV>, j: int)
    requires
        0 <= j <= fs.len(),
        scan_fns(fs.take(j)) is Err,
    ensures
        scan_fns(fs) == scan_fns(fs.take(j)),
    decreases fs.len() - j,
{
    if j == fs.len() {
        assert(fs.take(j) =~= fs);
    } else {
        assert(fs.take(j + 1).drop_last() =~= fs.take(j));
        assert(fs.take(j + 1).last() == fs[j]);
        lemma_scan_fns_prefix_err(fs, j + 1);
    }
}

/// For a module whose body is present and whose handler functions all
/// process successfully, the scan returns exactly one instruction record per
/// function item, in the functions' declaration order; the non-function
/// items contribute nothing to the output.
pub proof fn lemma_well_formed_module_scans_fully(m: ItemModV)
    requires
        m.content is Some,
        forall|j: int|
            0 <= j < fns_of(m.content->Some_0).len() ==> process_fn(
                #[trigger] fns_of(m.content->Some_0)[j],
            ) is Ok,
    ensures
        spec_parse(m) is Ok,
        spec_parse(m)->Ok_0.len() == fns_of(m.content->Some_0).len(),
        forall|k: int|
            0 <= k < fns_of(m.content->Some_0).len() ==> spec_parse(m)->Ok_0[k] == process_fn(
                #[trigger] fns_of(m.content->Some_0)[k],
            )->Ok_0,
{
    lemma_scan_fns_all_ok(fns_of(m.content->Some_0));
}

/// The instruction record of a well-formed handler, field by field: the
/// record keeps the handler's name and its declaration verbatim, its context
/// is the classification of the first parameter, its resolved identifier
/// comes from the context's type annotation, and its arguments are the
/// classifications of the remaining parameters, in order.
pub proof fn lemma_record_of_well_formed_handler(f: FnDeclV)
    requires
        f.params.len() >= 1,
        forall|j: int| 0 <= j < f.params.len() ==> classify_param(#[trigger] f.params[j]) is Ok,
        resolve_ctx_ident(classify_param(f.params[0])->Ok_0.raw_arg.ty) is Ok,
    ensures
        process_fn(f) is Ok,
        process_fn(f)->Ok_0.ident == f.ident,
        process_fn(f)->Ok_0.raw_method == f,
        process_fn(f)->Ok_0.ctx == classify_param(f.params[0])->Ok_0,
        process_fn(f)->Ok_0.anchor_ident == resolve_ctx_ident(
            classify_param(f.params[0])->Ok_0.raw_arg.ty,
        )->Ok_0,
        process_fn(f)->Ok_0.args.len() == f.params.len() - 1,
        forall|k: int|
            0 <= k < f.params.len() - 1 ==> process_fn(f)->Ok_0.args[k] == classify_param(
                #[trigger] f.params[k + 1],
            )->Ok_0,
{
    lemma_classify_all_ok(f.params);
    let xs = classify_params(f.params)->Ok_0;
    assert forall|k: int|
        0 <= k < f.params.len() - 1 implies process_fn(f)->Ok_0.args[k] == classify_param(
        #[trigger] f.params[k + 1],
    )->Ok_0 by {
        assert(xs.drop_first()[k] == xs[k + 1]);
    }
}

/// A module with no body fails with `MissingModuleBody` at the module's own
/// span.
pub proof fn lemma_module_without_body_fails(m: ItemModV)
    requires
        m.content is None,
    ensures
        spec_parse(m) == Err::<Seq<IxV>, ParseError>(
            ParseError { kind: ErrorKind::MissingModuleBody, span: m.span },
        ),
{
}

/// A handler function with zero parameters fails with `EmptyParameterList`
/// at its signature's span: there is no context parameter to split off.
pub proof fn lemma_zero_parameters_fail(f: FnDeclV)
    requires
        f.params.len() == 0,
    ensures
        spec_parse_args(f) == Err::<(IxArgV, Seq<IxArgV>), ParseError>(
            ParseError { kind: ErrorKind::EmptyParameterList, span: f.sig_span },
        ),
{
}

/// A handler function whose first invalid parameter is a receiver parameter
/// — at any position — fails with `ReceiverParameterNotAllowed` located at
/// that parameter.
pub proof fn lemma_receiver_parameter_fails(f: FnDeclV, i: int, sp: Span)
    requires
        0 <= i < f.params.len(),
        f.params[i] == ParamV::Receiver(sp),
        forall|j: int| 0 <= j < i ==> classify_param(#[trigger] f.params[j]) is Ok,
    ensures
        spec_parse_args(f) == Err::<(IxArgV, Seq<IxArgV>), ParseError>(
            ParseError { kind: ErrorKind::ReceiverParameterNotAllowed, span: sp },
        ),
{
    lemma_first_bad_parameter_fails(f, i);
}

/// A handler function whose first invalid parameter is bound by a pattern
/// that is not a plain identifier fails with `UnsupportedParameterPattern`
/// located at that pattern — even when the parameters before it, the context
/// included, are well-formed.
pub proof fn lemma_pattern_parameter_fails(f: FnDeclV, i: int, t: TypedArgV, sp: Span)
    requires
        0 <= i < f.params.len(),
        f.params[i] == ParamV::Typed(t),
        t.pat == (PatV::Other { span: sp }),
        forall|j: int| 0 <= j < i ==> classify_param(#[trigger] f.params[j]) is Ok,
    ensures
        spec_parse_args(f) == Err::<(IxArgV, Seq<IxArgV>), ParseError>(
            ParseError { kind: ErrorKind::UnsupportedParameterPattern, span: sp },
        ),
{
    lemma_first_bad_parameter_fails(f, i);
}

/// The first invalid parameter of a handler, in left-to-right order,
/// determines the error of the whole parameter pass.
proof fn lemma_first_bad_parameter_fails(f: FnDeclV, i: int)
    requires
        0 <= i < f.params.len(),
        classify_param(f.params[i]) is Err,
        forall|j: int| 0 <= j < i ==> classify_param(#[trigger] f.params[j]) is Ok,
    ensures
        spec_parse_args(f) == Err::<(IxArgV, Seq<IxArgV>), ParseError>(
            classify_param(f.params[i])->Err_0,
        ),
{
    let ps = f.params;
    let pre = ps.take(i);
    assert forall|j: int| 0 <= j < pre.len() implies classify_param(#[trigger] pre[j]) is Ok by {
        assert(pre[j] == ps[j]);
    }
    lemma_classify_all_ok(pre);
    assert(ps.take(i + 1).drop_last() =~= pre);
    assert(ps.take(i + 1).last() == ps[i]);
    lemma_classify_prefix_err_local(ps, i + 1);
}

/// Once some prefix of the parameter list fails to classify, the whole list
/// fails with the same (first) error.
proof fn lemma_classify_prefix_err_local(ps: Seq<ParamV>, j: int)
    requires
        0 <= j <= ps.len(),
        classify_params(ps.take(j)) is Err,
    ensures
        classify_params(ps) == classify_params(ps.take(j)),
    decreases ps.len() - j,
{
    if j == ps.len() {
        assert(ps.take(j) =~= ps);
    } else {
        assert(ps.take(j + 1).drop_last() =~= ps.take(j));
        assert(ps.take(j + 1).last() == ps[j]);
        lemma_classify_prefix_err_local(ps, j + 1);
    }
}

/// The scan is a pure function of its input: two scans of structurally
/// identical modules return structurally identical results, so running the
/// scan twice on the same unchanged input yields the same output.
pub proof fn lemma_scan_deterministic(m1: ItemModV, m2: ItemModV)
    requires
        m1 == m2,
    ensures
        spec_parse(m1) == spec_parse(m2),
{
}

/// When several handler functions are malformed, the error reported for the
/// whole sequence is the one of the earliest malformed function, in
/// declaration order; the functions after it contribute nothing.
pub proof fn lemma_first_malformed_function_wins(fs: Seq<FnDeclV>, i: int)
    requires
        0 <= i < fs.len(),
        process_fn(fs[i]) is Err,
        forall|j: int| 0 <= j < i ==> process_fn(#[trigger] fs[j]) is Ok,
    ensures
        scan_fns(fs) == Err::<Seq<IxV>, ParseError>(process_fn(fs[i])->Err_0),
{
    let pre = fs.take(i);
    assert forall|j: int| 0 <= j < pre.len() implies process_fn(#[trigger] pre[j]) is Ok by {
        assert(pre[j] == fs[j]);
    }
    lemma_scan_fns_all_ok(pre);
    assert(fs.take(i + 1).drop_last() =~= pre);
    assert(fs.take(i + 1).last() == fs[i]);
    lemma_scan_fns_prefix_err(fs, i + 1);
}

/// The module-level reading of the fail-fast rule: with the body present,
/// the scan of the whole module reports the error of the earliest malformed
/// handler function.
pub proof fn lemma_first_malformed_aborts_module(m: ItemModV, i: int)
    requires
        m.content is Some,
        0 <= i < fns_of(m.content->Some_0).len(),
        process_fn(fns_of(m.content->Some_0)[i]) is Err,
        forall|j: int|
            0 <= j < i ==> process_fn(#[trigger] fns_of(m.content->Some_0)[j]) is Ok,
    ensures
        spec_parse(m) == Err::<Seq<IxV>, ParseError>(
            process_fn(fns_of(m.content->Some_0)[i])->Err_0,
        ),
{
    lemma_first_malformed_function_wins(fns_of(m.content->Some_0), i);
}

} // verus!

