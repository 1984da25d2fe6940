//! The annotation-based grammar, driven end to end: ordinary functions
//! holding nested generator-expression blocks, recognized anywhere in the
//! body, each rewritten into a producer.

use iterator_item::driver::{Binding, Env, Val, ValList, val_eq};
use iterator_item::expand::{enter_fn, take_from_expr, TakenExpr};
use iterator_item::expr::{Place, Stmt, StmtList};
use iterator_item::grammar::{iterator_item, Expanded};
use iterator_item::item::iterator_of;
use iterator_item::token::{toks, Delim, Name, Punct, Tok, TokList};

fn kw(n: Name) -> Tok {
    Tok::Ident(n)
}

fn id(n: u32) -> Tok {
    Tok::Ident(Name::User(n))
}

fn p(x: Punct) -> Tok {
    Tok::Punct(x)
}

fn lit(v: u64) -> Tok {
    Tok::LitInt(v)
}

fn grp(d: Delim, v: Vec<Tok>) -> Tok {
    Tok::Group(d, Box::new(toks(v)))
}

fn expand_plain(ts: TokList) -> iterator_item::ast::OrdFn {
    let ex = iterator_item(ts, 1_000_000);
    assert!(ex.diags.is_empty());
    match ex.result {
        Ok(Expanded::Plain(f)) => f,
        Ok(Expanded::Generator(_)) => panic!("expected an ordinary function"),
        Err(_) => panic!("expansion failed"),
    }
}

fn expect_ints(items: &Vec<Val>, exp: &[i64]) {
    assert_eq!(items.len(), exp.len());
    for i in 0..exp.len() {
        assert!(val_eq(&items[i], &Val::Int(exp[i])));
    }
}

#[test]
fn gen_blocks_test_foo() {
    // fn foo() -> I { #[size_hint((10, Some(10)))] gen { for n in 0..10 { yield n; } } }
    let ts = toks(vec![
        p(Punct::Pound),
        kw(Name::KwFn),
        id(20),
        grp(Delim::Paren, vec![]),
        p(Punct::RArrow),
        id(101),
        grp(
            Delim::Brace,
            vec![
                p(Punct::Pound),
                grp(
                    Delim::Bracket,
                    vec![
                        kw(Name::AttrSizeHint),
                        grp(
                            Delim::Paren,
                            vec![grp(
                                Delim::Paren,
                                vec![
                                    lit(10),
                                    p(Punct::Comma),
                                    kw(Name::CtorSome),
                                    grp(Delim::Paren, vec![lit(10)]),
                                ],
                            )],
                        ),
                    ],
                ),
                kw(Name::KwGen),
                grp(
                    Delim::Brace,
                    vec![
                        kw(Name::KwFor),
                        id(1),
                        kw(Name::KwIn),
                        lit(0),
                        p(Punct::DotDot),
                        lit(10),
                        grp(Delim::Brace, vec![kw(Name::KwYield), id(1), p(Punct::Semi)]),
                    ],
                ),
            ],
        ),
    ]);
    let f = expand_plain(ts);
    let (gx, env) = enter_fn(f.body, Env::Nil).unwrap();
    let foo = iterator_of(gx, env).unwrap();
    assert_eq!(foo.size_hint(), (10, Some(10)));
    let items = foo.into_items(1_000_000).unwrap();
    for n in 0..10i64 {
        assert!(val_eq(&items[n as usize], &Val::Int(n)));
    }
    assert_eq!(items.len(), 10);
}

#[test]
fn gen_blocks_test_bar() {
    // fn bar() -> I { let inner = [1, 2, 3];
    //   #[size_hint({ inner + 2 })] gen { yield 42; for n in inner { yield n; } yield 42; } }
    let ts = toks(vec![
        p(Punct::Pound),
        kw(Name::KwFn),
        id(21),
        grp(Delim::Paren, vec![]),
        p(Punct::RArrow),
        id(101),
        grp(
            Delim::Brace,
            vec![
                kw(Name::KwLet),
                id(5),
                p(Punct::Eq),
                grp(
                    Delim::Bracket,
                    vec![lit(1), p(Punct::Comma), lit(2), p(Punct::Comma), lit(3)],
                ),
                p(Punct::Semi),
                p(Punct::Pound),
                grp(
                    Delim::Bracket,
                    vec![
                        kw(Name::AttrSizeHint),
                        grp(
                            Delim::Paren,
                            vec![grp(Delim::Brace, vec![id(5), p(Punct::Plus), lit(2)])],
                        ),
                    ],
                ),
                kw(Name::KwGen),
                grp(
                    Delim::Brace,
                    vec![
                        kw(Name::KwYield),
                        lit(42),
                        p(Punct::Semi),
                        kw(Name::KwFor),
                        id(1),
                        kw(Name::KwIn),
                        id(5),
                        grp(Delim::Brace, vec![kw(Name::KwYield), id(1), p(Punct::Semi)]),
                        kw(Name::KwYield),
                        lit(42),
                        p(Punct::Semi),
                    ],
                ),
            ],
        ),
    ]);
    let f = expand_plain(ts);
    let (gx, env) = enter_fn(f.body, Env::Nil).unwrap();
    let bar = iterator_of(gx, env).unwrap();
    assert_eq!(bar.size_hint(), (5, Some(5)));
    let items = bar.into_items(1_000_000).unwrap();
    expect_ints(&items, &[42, 1, 2, 3, 42]);
}

#[test]
fn gen_blocks_test_early_return() {
    // fn early_return() -> I { gen {
    //   let mut x = Some(3); let y = x.take()?; yield y; let y = x.take()?; yield y; } }
    let ts = toks(vec![
        p(Punct::Pound),
        kw(Name::KwFn),
        id(23),
        grp(Delim::Paren, vec![]),
        p(Punct::RArrow),
        id(101),
        grp(
            Delim::Brace,
            vec![
                kw(Name::KwGen),
                grp(
                    Delim::Brace,
                    vec![
                        kw(Name::KwLet),
                        kw(Name::KwMut),
                        id(2),
                        p(Punct::Eq),
                        kw(Name::CtorSome),
                        grp(Delim::Paren, vec![lit(3)]),
                        p(Punct::Semi),
                        kw(Name::KwLet),
                        id(3),
                        p(Punct::Eq),
                        id(2),
                        p(Punct::Dot),
                        kw(Name::MethTake),
                        grp(Delim::Paren, vec![]),
                        p(Punct::Question),
                        p(Punct::Semi),
                        kw(Name::KwYield),
                        id(3),
                        p(Punct::Semi),
                        kw(Name::KwLet),
                        id(3),
                        p(Punct::Eq),
                        id(2),
                        p(Punct::Dot),
                        kw(Name::MethTake),
                        grp(Delim::Paren, vec![]),
                        p(Punct::Question),
                        p(Punct::Semi),
                        kw(Name::KwYield),
                        id(3),
                        p(Punct::Semi),
                    ],
                ),
            ],
        ),
    ]);
    let f = expand_plain(ts);
    let (gx, env) = enter_fn(f.body, Env::Nil).unwrap();
    let result = iterator_of(gx, env).unwrap();
    let items = result.into_items(1_000_000).unwrap();
    expect_ints(&items, &[3]);
}

#[test]
fn test_replace_pairs() {
    // fn replace_pairs(buffer: B) { let count = buffer.drain(..).sum();
    //   buffer.extend(gen { yield 0; for i in 1..=count { yield -i; yield i; } }); }
    let ts = toks(vec![
        p(Punct::Pound),
        kw(Name::KwFn),
        id(25),
        grp(Delim::Paren, vec![id(30), p(Punct::Colon), id(101)]),
        grp(
            Delim::Brace,
            vec![
                kw(Name::KwLet),
                id(6),
                p(Punct::Eq),
                id(30),
                p(Punct::Dot),
                id(31),
                grp(Delim::Paren, vec![p(Punct::DotDot)]),
                p(Punct::Dot),
                id(32),
                grp(Delim::Paren, vec![]),
                p(Punct::Semi),
                id(30),
                p(Punct::Dot),
                id(33),
                grp(
                    Delim::Paren,
                    vec![
                        kw(Name::KwGen),
                        grp(
                            Delim::Brace,
                            vec![
                                kw(Name::KwYield),
                                lit(0),
                                p(Punct::Semi),
                                kw(Name::KwFor),
                                id(7),
                                kw(Name::KwIn),
                                lit(1),
                                p(Punct::DotDotEq),
                                id(6),
                                grp(
                                    Delim::Brace,
                                    vec![
                                        kw(Name::KwYield),
                                        p(Punct::Minus),
                                        id(7),
                                        p(Punct::Semi),
                                        kw(Name::KwYield),
                                        id(7),
                                        p(Punct::Semi),
                                    ],
                                ),
                            ],
                        ),
                    ],
                ),
                p(Punct::Semi),
            ],
        ),
    ]);
    let f = expand_plain(ts);
    // the surrounding function drains the buffer and feeds its sum to the
    // producer; that part is plain code around the generator, done here
    let mut pairs: Vec<i64> = vec![1, 1, 1];
    let count: i64 = pairs.drain(..).sum();
    // locate the producer nested inside the call's argument
    let mut gx_found = None;
    let mut stmts = f.body;
    loop {
        match stmts {
            StmtList::Nil => break,
            StmtList::Cons(s, rest) => {
                match s {
                    Stmt::ExprStmt(e) => match take_from_expr(e) {
                        TakenExpr::Found(gx) => {
                            gx_found = Some(gx);
                            break;
                        },
                        TakenExpr::Not(_) => {},
                    },
                    _ => {},
                }
                stmts = *rest;
            },
        }
    }
    let gx = gx_found.expect("a generator block nested in the call");
    let env = Env::Cons(
        Binding { place: Place::Var(Name::User(6)), val: Val::Int(count) },
        Box::new(Env::Nil),
    );
    let producer = iterator_of(gx, env).unwrap();
    let items = producer.into_items(1_000_000).unwrap();
    for v in &items {
        match v {
            Val::Int(x) => pairs.push(*x),
            _ => panic!("the producer yields integers"),
        }
    }
    assert_eq!(&pairs, &[0, -1, 1, -2, 2, -3, 3]);
}

#[test]
fn gen_blocks_test_foo_method() {
    // fn method(&self) -> I { gen { while let Some(n) = self.0.take() { yield n; } } }
    let ts = toks(vec![
        p(Punct::Pound),
        kw(Name::KwFn),
        id(24),
        grp(Delim::Paren, vec![p(Punct::Amp), kw(Name::KwSelfValue)]),
        p(Punct::RArrow),
        id(101),
        grp(
            Delim::Brace,
            vec![
                kw(Name::KwGen),
                grp(
                    Delim::Brace,
                    vec![
                        kw(Name::KwWhile),
                        kw(Name::KwLet),
                        kw(Name::CtorSome),
                        grp(Delim::Paren, vec![id(1)]),
                        p(Punct::Eq),
                        kw(Name::KwSelfValue),
                        p(Punct::Dot),
                        lit(0),
                        p(Punct::Dot),
                        kw(Name::MethTake),
                        grp(Delim::Paren, vec![]),
                        grp(Delim::Brace, vec![kw(Name::KwYield), id(1), p(Punct::Semi)]),
                    ],
                ),
            ],
        ),
    ]);
    let f = expand_plain(ts);
    let env0 = Env::Cons(
        Binding { place: Place::SelfField(0), val: Val::VSome(Box::new(Val::Int(0))) },
        Box::new(Env::Nil),
    );
    let (gx, env) = enter_fn(f.body, env0).unwrap();
    let iter = iterator_of(gx, env).unwrap();
    let items = iter.into_items(1_000_000).unwrap();
    expect_ints(&items, &[0]);
}
