//! The engine's own behavior: the keyword-marking pass, dispatch and
//! grammar errors, diagnostics policy, size-hint policy, lifetime elision,
//! the try-unwrap policy, and the classification of try-propagating yield
//! types.

use iterator_item::ast::{is_try_yield, Arg, ArgKind, ArgList, AttrList, GParam, GParams};
use iterator_item::diag::{Diag, DiagKind, DiagLevel};
use iterator_item::driver::{Binding, Env, Val, val_eq};
use iterator_item::elision::unelide_lifetimes;
use iterator_item::expr::Place;
use iterator_item::grammar::{iterator_item, Expanded};
use iterator_item::item::{iterator_of, stream_of, Polled};
use iterator_item::macrofy::macrofy;
use iterator_item::token::{toks, Delim, LtName, Name, Punct, Tok, TokList};

fn kw(n: Name) -> Tok {
    Tok::Ident(n)
}

fn id(n: u32) -> Tok {
    Tok::Ident(Name::User(n))
}

fn p(x: Punct) -> Tok {
    Tok::Punct(x)
}

fn lit(v: u64) -> Tok {
    Tok::LitInt(v)
}

fn grp(d: Delim, v: Vec<Tok>) -> Tok {
    Tok::Group(d, Box::new(toks(v)))
}

fn tok_eq(a: &Tok, b: &Tok) -> bool {
    match (a, b) {
        (Tok::Ident(x), Tok::Ident(y)) => x == y,
        (Tok::Punct(x), Tok::Punct(y)) => x == y,
        (Tok::LitInt(x), Tok::LitInt(y)) => x == y,
        (Tok::Lifetime(x), Tok::Lifetime(y)) => x == y,
        (Tok::Group(dx, x), Tok::Group(dy, y)) => dx == dy && toks_eq(x, y),
        _ => false,
    }
}

fn toks_eq(a: &TokList, b: &TokList) -> bool {
    match (a, b) {
        (TokList::Nil, TokList::Nil) => true,
        (TokList::Cons(x, xs), TokList::Cons(y, ys)) => tok_eq(x, y) && toks_eq(xs, ys),
        _ => false,
    }
}

#[test]
fn test_macrofy_marks_keywords() {
    // gen { } becomes gen ! { }; async gen { } becomes async_gen ! { };
    // the rewrite reaches into nested groups
    let input = toks(vec![
        kw(Name::KwGen),
        grp(Delim::Brace, vec![]),
        grp(
            Delim::Paren,
            vec![kw(Name::KwAsync), kw(Name::KwGen), grp(Delim::Brace, vec![])],
        ),
    ]);
    let expected = toks(vec![
        kw(Name::KwGen),
        p(Punct::Bang),
        grp(Delim::Brace, vec![]),
        grp(
            Delim::Paren,
            vec![kw(Name::KwAsyncGen), p(Punct::Bang), grp(Delim::Brace, vec![])],
        ),
    ]);
    assert!(toks_eq(&macrofy(input), &expected));
}

#[test]
fn test_macrofy_is_idempotent() {
    let input = toks(vec![
        kw(Name::KwAsync),
        kw(Name::KwGen),
        grp(Delim::Brace, vec![kw(Name::KwGen), grp(Delim::Brace, vec![lit(1)])]),
        kw(Name::KwAsync),
        id(9),
    ]);
    let once = macrofy(input);
    // the pass consumes its input, so rebuild it for the double application
    let input2 = toks(vec![
        kw(Name::KwAsync),
        kw(Name::KwGen),
        grp(Delim::Brace, vec![kw(Name::KwGen), grp(Delim::Brace, vec![lit(1)])]),
        kw(Name::KwAsync),
        id(9),
    ]);
    let again = macrofy(macrofy(input2));
    assert!(toks_eq(&once, &again));
}

#[test]
fn test_gen_keyword_form() {
    // pub gen fn f() -> i32 { yield 1; yield 2; } : the keyword-prefixed
    // grammar; the marking pass turns the bare keyword into an invocation
    let ts = toks(vec![
        p(Punct::Bang),
        kw(Name::KwPub),
        kw(Name::KwGen),
        kw(Name::KwFn),
        id(27),
        grp(Delim::Paren, vec![]),
        p(Punct::RArrow),
        id(100),
        grp(
            Delim::Brace,
            vec![
                kw(Name::KwYield),
                lit(1),
                p(Punct::Semi),
                kw(Name::KwYield),
                lit(2),
                p(Punct::Semi),
            ],
        ),
    ]);
    let ex = iterator_item(ts, 1_000_000);
    assert!(ex.diags.is_empty());
    let lf = match ex.result {
        Ok(Expanded::Generator(lf)) => lf,
        _ => panic!("the keyword-prefixed grammar must parse"),
    };
    assert_eq!(lf.vis, iterator_item::ast::Vis::Public);
    let it = iterator_of(lf.producer, Env::Nil).unwrap();
    let items = it.into_items(1_000_000).unwrap();
    assert_eq!(items.len(), 2);
    assert!(val_eq(&items[0], &Val::Int(1)));
    assert!(val_eq(&items[1], &Val::Int(2)));
}

#[test]
fn test_async_gen_keyword_form() {
    // async gen fn f() -> i32 { yield 1; } : asynchrony through the
    // combined keyword, equivalent to the separate spelling
    let ts = toks(vec![
        p(Punct::Bang),
        kw(Name::KwAsync),
        kw(Name::KwGen),
        kw(Name::KwFn),
        id(27),
        grp(Delim::Paren, vec![]),
        p(Punct::RArrow),
        id(100),
        grp(Delim::Brace, vec![kw(Name::KwYield), lit(1), p(Punct::Semi)]),
    ]);
    let ex = iterator_item(ts, 1_000_000);
    assert!(ex.diags.is_empty());
    let lf = match ex.result {
        Ok(Expanded::Generator(lf)) => lf,
        _ => panic!("the combined keyword spelling must parse"),
    };
    assert!(lf.producer.is_async);
    let st = stream_of(lf.producer, Env::Nil).unwrap();
    let polls = st.into_polls(1_000_000).unwrap();
    assert_eq!(polls.len(), 1);
    match &polls[0] {
        Polled::Ready(v) => assert!(val_eq(v, &Val::Int(1))),
        Polled::Pending => panic!("no pending polls expected"),
    }
}

#[test]
fn test_dispatch_requires_marker() {
    let ts = toks(vec![kw(Name::KwFn), id(20), grp(Delim::Paren, vec![])]);
    let ex = iterator_item(ts, 1_000_000);
    match ex.result {
        Err(d) => assert_eq!(d.kind, DiagKind::ExpectedSyntaxMarker),
        Ok(_) => panic!("an unmarked item must not parse"),
    }
}

#[test]
fn test_gen_keyword_required() {
    let ts = toks(vec![p(Punct::Bang), id(50), p(Punct::Bang), kw(Name::KwFn)]);
    let ex = iterator_item(ts, 1_000_000);
    match ex.result {
        Err(d) => assert_eq!(d.kind, DiagKind::ExpectedGenKeyword),
        Ok(_) => panic!("an unknown introducing keyword must not parse"),
    }
}

#[test]
fn test_arrow_spelling_warns() {
    // fn* f() -> i32 { yield 1; } : likely user error, warned, still parsed
    let ts = toks(vec![
        p(Punct::Star),
        kw(Name::KwFn),
        p(Punct::Star),
        id(27),
        grp(Delim::Paren, vec![]),
        p(Punct::RArrow),
        id(100),
        grp(Delim::Brace, vec![kw(Name::KwYield), lit(1), p(Punct::Semi)]),
    ]);
    let ex = iterator_item(ts, 1_000_000);
    assert_eq!(ex.diags.len(), 1);
    assert_eq!(
        ex.diags[0],
        Diag { level: DiagLevel::Warning, kind: DiagKind::ArrowAfterFnStar }
    );
    let lf = match ex.result {
        Ok(Expanded::Generator(lf)) => lf,
        _ => panic!("the arrow spelling still parses"),
    };
    // the yield type was still parsed
    assert!(lf.producer.hint.is_none());
    let it = iterator_of(lf.producer, Env::Nil).unwrap();
    let items = it.into_items(1_000_000).unwrap();
    assert_eq!(items.len(), 1);
    assert!(val_eq(&items[0], &Val::Int(1)));
}

#[test]
fn test_return_value_diagnosed() {
    // return 5 inside a generator body: diagnosed, value dropped,
    // expansion still succeeds and the producer still drives
    let ts = toks(vec![
        p(Punct::Star),
        kw(Name::KwFn),
        p(Punct::Star),
        id(27),
        grp(Delim::Paren, vec![]),
        kw(Name::KwYields),
        id(100),
        grp(
            Delim::Brace,
            vec![
                kw(Name::KwReturn),
                lit(5),
                p(Punct::Semi),
                kw(Name::KwYield),
                lit(1),
                p(Punct::Semi),
            ],
        ),
    ]);
    let ex = iterator_item(ts, 1_000_000);
    assert!(ex.diags.contains(&Diag {
        level: DiagLevel::Error,
        kind: DiagKind::ReturnWithValue,
    }));
    assert!(ex.diags[0].has_help());
    let lf = match ex.result {
        Ok(Expanded::Generator(lf)) => lf,
        _ => panic!("a value-carrying return must not abort expansion"),
    };
    let it = iterator_of(lf.producer, Env::Nil).unwrap();
    let items = it.into_items(1_000_000).unwrap();
    assert_eq!(items.len(), 0);
}

#[test]
fn test_variadic_dropped() {
    let ts = toks(vec![
        p(Punct::Star),
        kw(Name::KwFn),
        p(Punct::Star),
        id(27),
        grp(
            Delim::Paren,
            vec![
                id(2),
                p(Punct::Colon),
                id(101),
                p(Punct::Comma),
                p(Punct::Ellipsis),
            ],
        ),
        kw(Name::KwYields),
        id(100),
        grp(Delim::Brace, vec![kw(Name::KwYield), lit(1), p(Punct::Semi)]),
    ]);
    let ex = iterator_item(ts, 1_000_000);
    assert_eq!(
        ex.diags[0],
        Diag { level: DiagLevel::Error, kind: DiagKind::VariadicArg }
    );
    let lf = match ex.result {
        Ok(Expanded::Generator(lf)) => lf,
        _ => panic!("a variadic parameter must not abort expansion"),
    };
    let it = iterator_of(lf.producer, Env::Nil).unwrap();
    let items = it.into_items(1_000_000).unwrap();
    assert_eq!(items.len(), 1);
}

#[test]
fn test_second_receiver_rejected() {
    let ts = toks(vec![
        p(Punct::Star),
        kw(Name::KwFn),
        p(Punct::Star),
        id(27),
        grp(
            Delim::Paren,
            vec![
                p(Punct::Amp),
                kw(Name::KwSelfValue),
                p(Punct::Comma),
                p(Punct::Amp),
                kw(Name::KwSelfValue),
            ],
        ),
        kw(Name::KwYields),
        id(100),
        grp(Delim::Brace, vec![]),
    ]);
    let ex = iterator_item(ts, 1_000_000);
    match ex.result {
        Err(d) => assert_eq!(d.kind, DiagKind::SecondReceiver),
        Ok(_) => panic!("a second receiver must not parse"),
    }
}

#[test]
fn test_receiver_after_arg_rejected() {
    let ts = toks(vec![
        p(Punct::Star),
        kw(Name::KwFn),
        p(Punct::Star),
        id(27),
        grp(
            Delim::Paren,
            vec![
                id(2),
                p(Punct::Colon),
                id(101),
                p(Punct::Comma),
                p(Punct::Amp),
                kw(Name::KwSelfValue),
            ],
        ),
        kw(Name::KwYields),
        id(100),
        grp(Delim::Brace, vec![]),
    ]);
    let ex = iterator_item(ts, 1_000_000);
    match ex.result {
        Err(d) => assert_eq!(d.kind, DiagKind::ReceiverAfterArg),
        Ok(_) => panic!("a receiver after an ordinary parameter must not parse"),
    }
}

#[test]
fn test_size_hint_last_wins() {
    // two size-hint annotations: the last one is honored, both are removed
    let ts = toks(vec![
        p(Punct::Star),
        p(Punct::Pound),
        grp(
            Delim::Bracket,
            vec![
                kw(Name::AttrSizeHint),
                grp(
                    Delim::Paren,
                    vec![grp(
                        Delim::Paren,
                        vec![lit(4), p(Punct::Comma), kw(Name::CtorNone)],
                    )],
                ),
            ],
        ),
        p(Punct::Pound),
        grp(
            Delim::Bracket,
            vec![
                kw(Name::AttrSizeHint),
                grp(
                    Delim::Paren,
                    vec![grp(
                        Delim::Paren,
                        vec![
                            lit(7),
                            p(Punct::Comma),
                            kw(Name::CtorSome),
                            grp(Delim::Paren, vec![lit(9)]),
                        ],
                    )],
                ),
            ],
        ),
        kw(Name::KwFn),
        p(Punct::Star),
        id(27),
        grp(Delim::Paren, vec![]),
        kw(Name::KwYields),
        id(100),
        grp(Delim::Brace, vec![]),
    ]);
    let ex = iterator_item(ts, 1_000_000);
    let lf = match ex.result {
        Ok(Expanded::Generator(lf)) => lf,
        _ => panic!("expansion failed"),
    };
    assert!(matches!(lf.attrs, iterator_item::ast::AttrList::Nil));
    let it = iterator_of(lf.producer, Env::Nil).unwrap();
    assert_eq!(it.size_hint(), (7, Some(9)));
}

#[test]
fn test_size_hint_default() {
    // absent any annotation, the reported hint is (0, no upper bound)
    let ts = toks(vec![
        p(Punct::Star),
        kw(Name::KwFn),
        p(Punct::Star),
        id(27),
        grp(Delim::Paren, vec![]),
        kw(Name::KwYields),
        id(100),
        grp(Delim::Brace, vec![kw(Name::KwYield), lit(1), p(Punct::Semi)]),
    ]);
    let ex = iterator_item(ts, 1_000_000);
    let lf = match ex.result {
        Ok(Expanded::Generator(lf)) => lf,
        _ => panic!("expansion failed"),
    };
    let it = iterator_of(lf.producer, Env::Nil).unwrap();
    assert_eq!(it.size_hint(), (0, None));
}

#[test]
fn test_try_policy_option_yields_failure() {
    // a try-yielding body suspends the converted failure once, then stops
    let ts = toks(vec![
        p(Punct::Star),
        kw(Name::KwFn),
        p(Punct::Star),
        id(27),
        grp(Delim::Paren, vec![id(2), p(Punct::Colon), id(101)]),
        kw(Name::KwYields),
        kw(Name::TyOption),
        p(Punct::Lt),
        id(100),
        p(Punct::Gt),
        grp(
            Delim::Brace,
            vec![
                kw(Name::KwLet),
                id(3),
                p(Punct::Eq),
                id(2),
                p(Punct::Dot),
                kw(Name::MethTake),
                grp(Delim::Paren, vec![]),
                p(Punct::Question),
                p(Punct::Semi),
                kw(Name::KwYield),
                id(3),
                p(Punct::Semi),
                kw(Name::KwLet),
                id(3),
                p(Punct::Eq),
                id(2),
                p(Punct::Dot),
                kw(Name::MethTake),
                grp(Delim::Paren, vec![]),
                p(Punct::Question),
                p(Punct::Semi),
                kw(Name::KwYield),
                id(3),
                p(Punct::Semi),
            ],
        ),
    ]);
    let ex = iterator_item(ts, 1_000_000);
    let lf = match ex.result {
        Ok(Expanded::Generator(lf)) => lf,
        _ => panic!("expansion failed"),
    };
    let env = Env::Cons(
        Binding {
            place: Place::Var(Name::User(2)),
            val: Val::VSome(Box::new(Val::Int(3))),
        },
        Box::new(Env::Nil),
    );
    let it = iterator_of(lf.producer, env).unwrap();
    let items = it.into_items(1_000_000).unwrap();
    assert_eq!(items.len(), 2);
    assert!(val_eq(&items[0], &Val::Int(3)));
    assert!(val_eq(&items[1], &Val::VNone));
}

#[test]
fn test_try_policy_async_bare_discards_failure() {
    // an asynchronous non-try body terminates at once on failure
    let ts = toks(vec![
        p(Punct::Star),
        kw(Name::KwAsync),
        kw(Name::KwFn),
        p(Punct::Star),
        id(27),
        grp(Delim::Paren, vec![id(2), p(Punct::Colon), id(101)]),
        kw(Name::KwYields),
        id(100),
        grp(
            Delim::Brace,
            vec![
                kw(Name::KwLet),
                id(3),
                p(Punct::Eq),
                id(2),
                p(Punct::Dot),
                kw(Name::MethTake),
                grp(Delim::Paren, vec![]),
                p(Punct::Question),
                p(Punct::Semi),
                kw(Name::KwYield),
                id(3),
                p(Punct::Semi),
                kw(Name::KwLet),
                id(3),
                p(Punct::Eq),
                id(2),
                p(Punct::Dot),
                kw(Name::MethTake),
                grp(Delim::Paren, vec![]),
                p(Punct::Question),
                p(Punct::Semi),
                kw(Name::KwYield),
                id(3),
                p(Punct::Semi),
            ],
        ),
    ]);
    let ex = iterator_item(ts, 1_000_000);
    let lf = match ex.result {
        Ok(Expanded::Generator(lf)) => lf,
        _ => panic!("expansion failed"),
    };
    let env = Env::Cons(
        Binding {
            place: Place::Var(Name::User(2)),
            val: Val::VSome(Box::new(Val::Int(3))),
        },
        Box::new(Env::Nil),
    );
    let st = stream_of(lf.producer, env).unwrap();
    let polls = st.into_polls(1_000_000).unwrap();
    assert_eq!(polls.len(), 1);
    match &polls[0] {
        Polled::Ready(v) => assert!(val_eq(v, &Val::Int(3))),
        Polled::Pending => panic!("no pending polls expected"),
    }
}

#[test]
fn test_elision_expands_and_is_idempotent() {
    let args = ArgList::Cons(
        Arg {
            attrs: AttrList::Nil,
            kind: ArgKind::Typed {
                is_mut: false,
                name: Name::User(2),
                ty: toks(vec![p(Punct::Amp), id(101)]),
            },
        },
        Box::new(ArgList::Nil),
    );
    let (g1, a1) = unelide_lifetimes(GParams::Nil, args);
    // one fresh lifetime, added before the (absent) type parameters
    match &g1 {
        GParams::Cons(GParam::Lt(LtName::Synth(0)), rest) => {
            assert!(matches!(**rest, GParams::Nil));
        },
        _ => panic!("one synthesized lifetime expected"),
    }
    match &a1 {
        ArgList::Cons(a, _) => match &a.kind {
            ArgKind::Typed { ty, .. } => assert!(toks_eq(
                ty,
                &toks(vec![
                    p(Punct::Amp),
                    Tok::Lifetime(LtName::Synth(0)),
                    id(101),
                ]),
            )),
            _ => panic!("a typed parameter expected"),
        },
        _ => panic!("one parameter expected"),
    }
    // applying the expander to its own output introduces nothing new
    let (g2, a2) = unelide_lifetimes(g1, a1);
    match &g2 {
        GParams::Cons(GParam::Lt(LtName::Synth(0)), rest) => {
            assert!(matches!(**rest, GParams::Nil));
        },
        _ => panic!("the second pass must not add lifetimes"),
    }
    match &a2 {
        ArgList::Cons(a, _) => match &a.kind {
            ArgKind::Typed { ty, .. } => assert!(toks_eq(
                ty,
                &toks(vec![
                    p(Punct::Amp),
                    Tok::Lifetime(LtName::Synth(0)),
                    id(101),
                ]),
            )),
            _ => panic!("a typed parameter expected"),
        },
        _ => panic!("one parameter expected"),
    }
}

#[test]
fn test_empty_body_exhausts() {
    // an empty body expands and is immediately exhausted
    let ts = toks(vec![
        p(Punct::Star),
        kw(Name::KwFn),
        p(Punct::Star),
        id(27),
        grp(Delim::Paren, vec![]),
        kw(Name::KwYields),
        id(100),
        grp(Delim::Brace, vec![]),
    ]);
    let ex = iterator_item(ts, 1_000_000);
    assert!(ex.diags.is_empty());
    let lf = match ex.result {
        Ok(Expanded::Generator(lf)) => lf,
        _ => panic!("expansion failed"),
    };
    let it = iterator_of(lf.producer, Env::Nil).unwrap();
    let items = it.into_items(1_000_000).unwrap();
    assert_eq!(items.len(), 0);
}

#[test]
fn test_straight_line_counts() {
    // N unconditional suspensions in straight-line code: exactly N values,
    // in source order
    let ts = toks(vec![
        p(Punct::Star),
        kw(Name::KwFn),
        p(Punct::Star),
        id(27),
        grp(Delim::Paren, vec![]),
        kw(Name::KwYields),
        id(100),
        grp(
            Delim::Brace,
            vec![
                kw(Name::KwYield),
                lit(5),
                p(Punct::Semi),
                kw(Name::KwYield),
                lit(6),
                p(Punct::Semi),
                kw(Name::KwYield),
                lit(7),
                p(Punct::Semi),
            ],
        ),
    ]);
    let ex = iterator_item(ts, 1_000_000);
    let lf = match ex.result {
        Ok(Expanded::Generator(lf)) => lf,
        _ => panic!("expansion failed"),
    };
    let it = iterator_of(lf.producer, Env::Nil).unwrap();
    let items = it.into_items(1_000_000).unwrap();
    assert_eq!(items.len(), 3);
    assert!(val_eq(&items[0], &Val::Int(5)));
    assert!(val_eq(&items[1], &Val::Int(6)));
    assert!(val_eq(&items[2], &Val::Int(7)));
}

#[test]
fn test_is_try_yield_shapes() {
    // literally Result or Option as a single path segment: try-propagating;
    // any other shape, including a qualified path: not
    assert!(is_try_yield(&Some(toks(vec![kw(Name::TyResult)]))));
    assert!(is_try_yield(&Some(toks(vec![
        kw(Name::TyOption),
        p(Punct::Lt),
        id(100),
        p(Punct::Gt),
    ]))));
    assert!(!is_try_yield(&Some(toks(vec![id(50)]))));
    assert!(!is_try_yield(&Some(toks(vec![
        id(50),
        p(Punct::PathSep),
        kw(Name::TyResult),
    ]))));
    assert!(!is_try_yield(&Some(toks(vec![
        kw(Name::TyResult),
        p(Punct::Lt),
        id(100),
        p(Punct::Gt),
        p(Punct::PathSep),
        id(51),
    ]))));
    assert!(!is_try_yield(&None));
}
