use ix_scan::ast::{FnDecl, Item, ItemMod, Param, Pat, Span, TypeAnn, TypedArg};
use ix_scan::error::ErrorKind;
use ix_scan::scan::{ctx_accounts_ident, parse, parse_args};

fn span(lo: u64, hi: u64) -> Span {
    Span { lo, hi }
}

fn ident_pat(name: &str, sp: Span) -> Pat {
    Pat::Ident { name: name.to_string(), span: sp }
}

fn ctx_arg(name: &str, accounts: &str, sp: Span) -> Param {
    Param::Typed(TypedArg {
        pat: ident_pat(name, sp),
        ty: TypeAnn::Generic {
            base: "Context".to_string(),
            args: vec![accounts.to_string()],
            span: sp,
        },
        span: sp,
    })
}

fn plain_arg(name: &str, ty: &str, sp: Span) -> Param {
    Param::Typed(TypedArg {
        pat: ident_pat(name, sp),
        ty: TypeAnn::Generic { base: ty.to_string(), args: Vec::new(), span: sp },
        span: sp,
    })
}

fn handler(name: &str, params: Vec<Param>, sp: Span) -> FnDecl {
    FnDecl {
        ident: name.to_string(),
        params,
        sig_span: sp,
        body: format!("body of {}", name),
    }
}

fn module(items: Vec<Item>) -> ItemMod {
    ItemMod { ident: "program".to_string(), span: span(0, 1000), content: Some(items) }
}

#[test]
fn two_handlers_and_a_type() {
    // initialize(ctx: Context<Initialize>, amount: u64), update(ctx: Context<Update>),
    // and an unrelated type declaration in between.
    let m = module(vec![
        Item::Fn(handler(
            "initialize",
            vec![ctx_arg("ctx", "Initialize", span(10, 20)), plain_arg("amount", "u64", span(21, 30))],
            span(10, 40),
        )),
        Item::Other(span(50, 60)),
        Item::Fn(handler("update", vec![ctx_arg("ctx", "Update", span(70, 80))], span(70, 90))),
    ]);
    let ixs = parse(&m).expect("well-formed module must scan");
    assert_eq!(ixs.len(), 2);
    assert_eq!(ixs[0].ident, "initialize");
    assert_eq!(ixs[0].anchor_ident, "Initialize");
    assert_eq!(ixs[0].ctx.name, "ctx");
    assert_eq!(ixs[0].args.len(), 1);
    assert_eq!(ixs[0].args[0].name, "amount");
    assert_eq!(ixs[1].ident, "update");
    assert_eq!(ixs[1].anchor_ident, "Update");
    assert_eq!(ixs[1].args.len(), 0);
}

#[test]
fn non_function_items_are_dropped() {
    let m = module(vec![
        Item::Other(span(1, 2)),
        Item::Fn(handler("a", vec![ctx_arg("ctx", "A", span(3, 4))], span(3, 5))),
        Item::Other(span(6, 7)),
        Item::Other(span(8, 9)),
        Item::Fn(handler("b", vec![ctx_arg("ctx", "B", span(10, 11))], span(10, 12))),
        Item::Other(span(13, 14)),
    ]);
    let ixs = parse(&m).expect("well-formed module must scan");
    assert_eq!(ixs.len(), 2);
    assert_eq!(ixs[0].ident, "a");
    assert_eq!(ixs[1].ident, "b");
}

#[test]
fn empty_body_scans_to_nothing() {
    let ixs = parse(&module(Vec::new())).expect("an empty body holds no handlers");
    assert_eq!(ixs.len(), 0);
}

#[test]
fn missing_module_body() {
    let m = ItemMod { ident: "program".to_string(), span: span(5, 9), content: None };
    let e = parse(&m).expect_err("a bodiless module must be rejected");
    assert_eq!(e.kind, ErrorKind::MissingModuleBody);
    assert_eq!(e.span, span(5, 9));
    assert_eq!(e.message(), "program content not provided");
}

#[test]
fn zero_parameters_fail() {
    let f = handler("bare", Vec::new(), span(100, 120));
    let e = parse_args(&f).expect_err("a handler without parameters has no context");
    assert_eq!(e.kind, ErrorKind::EmptyParameterList);
    assert_eq!(e.span, span(100, 120));
    let m = module(vec![Item::Fn(handler("bare", Vec::new(), span(100, 120)))]);
    let e2 = parse(&m).expect_err("the scan must reject the bare handler");
    assert_eq!(e2.kind, ErrorKind::EmptyParameterList);
    assert_eq!(e2.span, span(100, 120));
}

#[test]
fn receiver_parameter_fails() {
    // The receiver sits after a well-formed context parameter.
    let f = handler(
        "method_like",
        vec![ctx_arg("ctx", "A", span(10, 15)), Param::Receiver(span(16, 20))],
        span(10, 30),
    );
    let e = parse_args(&f).expect_err("a receiver parameter must be rejected");
    assert_eq!(e.kind, ErrorKind::ReceiverParameterNotAllowed);
    assert_eq!(e.span, span(16, 20));
    assert_eq!(e.message(), "expected a typed argument not self");
}

#[test]
fn leading_receiver_parameter_fails() {
    let f = handler("method_like", vec![Param::Receiver(span(2, 6))], span(1, 9));
    let e = parse_args(&f).expect_err("a receiver parameter must be rejected");
    assert_eq!(e.kind, ErrorKind::ReceiverParameterNotAllowed);
    assert_eq!(e.span, span(2, 6));
}

#[test]
fn destructuring_pattern_fails() {
    // The second parameter is bound by a destructuring pattern; the first,
    // the context, is well-formed.
    let f = handler(
        "pattern",
        vec![
            ctx_arg("ctx", "A", span(10, 15)),
            Param::Typed(TypedArg {
                pat: Pat::Other { span: span(16, 22) },
                ty: TypeAnn::Other { span: span(23, 28) },
                span: span(16, 28),
            }),
        ],
        span(10, 30),
    );
    let e = parse_args(&f).expect_err("a destructuring pattern must be rejected");
    assert_eq!(e.kind, ErrorKind::UnsupportedParameterPattern);
    assert_eq!(e.span, span(16, 22));
    assert_eq!(e.message(), "expected argument name");
}

#[test]
fn context_type_must_be_generic() {
    let raw = TypedArg {
        pat: ident_pat("ctx", span(1, 2)),
        ty: TypeAnn::Other { span: span(3, 8) },
        span: span(1, 8),
    };
    let e = ctx_accounts_ident(&raw).expect_err("a non-generic context type must be rejected");
    assert_eq!(e.kind, ErrorKind::ContextIdentifierResolutionFailure);
    assert_eq!(e.span, span(3, 8));
}

#[test]
fn context_type_needs_exactly_one_argument() {
    let raw = TypedArg {
        pat: ident_pat("ctx", span(1, 2)),
        ty: TypeAnn::Generic {
            base: "Context".to_string(),
            args: vec!["A".to_string(), "B".to_string()],
            span: span(3, 12),
        },
        span: span(1, 12),
    };
    let e = ctx_accounts_ident(&raw).expect_err("two type arguments must be rejected");
    assert_eq!(e.kind, ErrorKind::ContextIdentifierResolutionFailure);
    assert_eq!(e.span, span(3, 12));
    assert_eq!(e.message(), "expected a context type with one type argument");
}

#[test]
fn context_identifier_is_resolved() {
    let raw = TypedArg {
        pat: ident_pat("ctx", span(1, 2)),
        ty: TypeAnn::Generic {
            base: "Context".to_string(),
            args: vec!["Initialize".to_string()],
            span: span(3, 12),
        },
        span: span(1, 12),
    };
    assert_eq!(ctx_accounts_ident(&raw).expect("one type argument resolves"), "Initialize");
}

#[test]
fn resolver_failure_aborts_scan() {
    let bad_ctx = Param::Typed(TypedArg {
        pat: ident_pat("ctx", span(10, 13)),
        ty: TypeAnn::Other { span: span(14, 19) },
        span: span(10, 19),
    });
    let m = module(vec![Item::Fn(handler("broken", vec![bad_ctx], span(10, 25)))]);
    let e = parse(&m).expect_err("an unresolvable context must abort the scan");
    assert_eq!(e.kind, ErrorKind::ContextIdentifierResolutionFailure);
    assert_eq!(e.span, span(14, 19));
}

#[test]
fn scan_is_idempotent() {
    let m = module(vec![
        Item::Fn(handler(
            "initialize",
            vec![ctx_arg("ctx", "Initialize", span(10, 20)), plain_arg("amount", "u64", span(21, 30))],
            span(10, 40),
        )),
        Item::Other(span(50, 60)),
        Item::Fn(handler("update", vec![ctx_arg("ctx", "Update", span(70, 80))], span(70, 90))),
    ]);
    let first = parse(&m);
    let second = parse(&m);
    assert_eq!(first, second);
    let third = parse(&m);
    assert_eq!(first, third);
}

#[test]
fn first_malformed_handler_wins() {
    // Both handlers are malformed; only the first, in declaration order, is
    // reported.
    let m = module(vec![
        Item::Fn(handler("first_bad", vec![Param::Receiver(span(10, 14))], span(10, 20))),
        Item::Fn(handler("second_bad", Vec::new(), span(30, 40))),
    ]);
    let e = parse(&m).expect_err("a malformed handler must abort the scan");
    assert_eq!(e.kind, ErrorKind::ReceiverParameterNotAllowed);
    assert_eq!(e.span, span(10, 14));
}

#[test]
fn raw_declaration_is_kept_verbatim() {
    let f = handler("initialize", vec![ctx_arg("ctx", "Initialize", span(10, 20))], span(10, 40));
    let m = module(vec![Item::Fn(f.clone())]);
    let ixs = parse(&m).expect("well-formed module must scan");
    assert_eq!(ixs[0].raw_method, f);
    assert_eq!(ixs[0].raw_method.body, "body of initialize");
}

#[test]
fn parse_args_splits_context_from_arguments() {
    let f = handler(
        "transfer",
        vec![
            ctx_arg("ctx", "Transfer", span(1, 5)),
            plain_arg("from", "Pubkey", span(6, 10)),
            plain_arg("amount", "u64", span(11, 15)),
        ],
        span(1, 20),
    );
    let (ctx, args) = parse_args(&f).expect("well-formed parameters must classify");
    assert_eq!(ctx.name, "ctx");
    assert_eq!(args.len(), 2);
    assert_eq!(args[0].name, "from");
    assert_eq!(args[1].name, "amount");
}
