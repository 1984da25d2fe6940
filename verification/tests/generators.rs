//! The prefixed-name grammar, driven end to end: declarations written as
//! `fn* name(..) yields Ty { .. }` are expanded and their produced
//! sequences pulled to exhaustion.

use iterator_item::driver::{Binding, Env, Val, ValList, val_eq};
use iterator_item::expr::Place;
use iterator_item::grammar::{iterator_item, Expanded};
use iterator_item::item::iterator_of;
use iterator_item::token::{toks, Delim, Name, Punct, Tok, TokList};

fn kw(n: Name) -> Tok {
    Tok::Ident(n)
}

fn id(n: u32) -> Tok {
    Tok::Ident(Name::User(n))
}

fn p(x: Punct) -> Tok {
    Tok::Punct(x)
}

fn lit(v: u64) -> Tok {
    Tok::LitInt(v)
}

fn grp(d: Delim, v: Vec<Tok>) -> Tok {
    Tok::Group(d, Box::new(toks(v)))
}

fn env1(place: Place, val: Val) -> Env {
    Env::Cons(Binding { place, val }, Box::new(Env::Nil))
}

fn int_list(vals: &[i64]) -> Val {
    let mut l = ValList::Nil;
    for v in vals.iter().rev() {
        l = ValList::Cons(Val::Int(*v), Box::new(l));
    }
    Val::VList(Box::new(l))
}

fn expand_generator(ts: TokList) -> (iterator_item::ast::LoweredFn, Vec<iterator_item::diag::Diag>) {
    let ex = iterator_item(ts, 1_000_000);
    match ex.result {
        Ok(Expanded::Generator(lf)) => (lf, ex.diags),
        Ok(Expanded::Plain(_)) => panic!("expected a generator declaration"),
        Err(_) => panic!("expansion failed"),
    }
}

fn expect_ints(items: &Vec<Val>, exp: &[i64]) {
    assert_eq!(items.len(), exp.len());
    for i in 0..exp.len() {
        assert!(val_eq(&items[i], &Val::Int(exp[i])));
    }
}

#[test]
fn generators_test_foo() {
    // #[size_hint((10, Some(10)))] fn* foo() yields i32 { for n in 0..10 { yield n; } }
    let ts = toks(vec![
        p(Punct::Star),
        p(Punct::Pound),
        grp(
            Delim::Bracket,
            vec![
                kw(Name::AttrSizeHint),
                grp(
                    Delim::Paren,
                    vec![grp(
                        Delim::Paren,
                        vec![
                            lit(10),
                            p(Punct::Comma),
                            kw(Name::CtorSome),
                            grp(Delim::Paren, vec![lit(10)]),
                        ],
                    )],
                ),
            ],
        ),
        kw(Name::KwFn),
        p(Punct::Star),
        id(20),
        grp(Delim::Paren, vec![]),
        kw(Name::KwYields),
        id(100),
        grp(
            Delim::Brace,
            vec![
                kw(Name::KwFor),
                id(1),
                kw(Name::KwIn),
                lit(0),
                p(Punct::DotDot),
                lit(10),
                grp(Delim::Brace, vec![kw(Name::KwYield), id(1), p(Punct::Semi)]),
            ],
        ),
    ]);
    let (lf, diags) = expand_generator(ts);
    assert!(diags.is_empty());
    let foo = iterator_of(lf.producer, Env::Nil).unwrap();
    assert_eq!(foo.size_hint(), (10, Some(10)));
    let items = foo.into_items(1_000_000).unwrap();
    for n in 0..10i64 {
        assert!(val_eq(&items[n as usize], &Val::Int(n)));
    }
    assert_eq!(items.len(), 10);
}

#[test]
fn generators_test_bar() {
    // #[size_hint({ iter + 2 })] fn* bar(iter: I) yields i32
    // { yield 42; for n in iter { yield n; } yield 42; }
    let ts = toks(vec![
        p(Punct::Star),
        p(Punct::Pound),
        grp(
            Delim::Bracket,
            vec![
                kw(Name::AttrSizeHint),
                grp(
                    Delim::Paren,
                    vec![grp(Delim::Brace, vec![id(4), p(Punct::Plus), lit(2)])],
                ),
            ],
        ),
        kw(Name::KwFn),
        p(Punct::Star),
        id(21),
        grp(Delim::Paren, vec![id(4), p(Punct::Colon), id(101)]),
        kw(Name::KwYields),
        id(100),
        grp(
            Delim::Brace,
            vec![
                kw(Name::KwYield),
                lit(42),
                p(Punct::Semi),
                kw(Name::KwFor),
                id(1),
                kw(Name::KwIn),
                id(4),
                grp(Delim::Brace, vec![kw(Name::KwYield), id(1), p(Punct::Semi)]),
                kw(Name::KwYield),
                lit(42),
                p(Punct::Semi),
            ],
        ),
    ]);
    let (lf, diags) = expand_generator(ts);
    assert!(diags.is_empty());
    let env = env1(Place::Var(Name::User(4)), int_list(&[1, 2, 3]));
    let bar = iterator_of(lf.producer, env).unwrap();
    assert_eq!(bar.size_hint(), (5, Some(5)));
    let items = bar.into_items(1_000_000).unwrap();
    expect_ints(&items, &[42, 1, 2, 3, 42]);
}

#[test]
fn generators_test_result() {
    // fn* result() yields Result<i32, ()>
    // { for n in 0..5 { yield Ok(n); } Err(())?; yield Ok(10); }
    let ts = toks(vec![
        p(Punct::Star),
        kw(Name::KwFn),
        p(Punct::Star),
        id(22),
        grp(Delim::Paren, vec![]),
        kw(Name::KwYields),
        kw(Name::TyResult),
        p(Punct::Lt),
        id(100),
        p(Punct::Comma),
        grp(Delim::Paren, vec![]),
        p(Punct::Gt),
        grp(
            Delim::Brace,
            vec![
                kw(Name::KwFor),
                id(1),
                kw(Name::KwIn),
                lit(0),
                p(Punct::DotDot),
                lit(5),
                grp(
                    Delim::Brace,
                    vec![
                        kw(Name::KwYield),
                        kw(Name::CtorOk),
                        grp(Delim::Paren, vec![id(1)]),
                        p(Punct::Semi),
                    ],
                ),
                kw(Name::CtorErr),
                grp(Delim::Paren, vec![grp(Delim::Paren, vec![])]),
                p(Punct::Question),
                p(Punct::Semi),
                kw(Name::KwYield),
                kw(Name::CtorOk),
                grp(Delim::Paren, vec![lit(10)]),
                p(Punct::Semi),
            ],
        ),
    ]);
    let (lf, diags) = expand_generator(ts);
    assert!(diags.is_empty());
    let result = iterator_of(lf.producer, Env::Nil).unwrap();
    let items = result.into_items(1_000_000).unwrap();
    for n in 0..5i64 {
        assert!(val_eq(&items[n as usize], &Val::VOk(Box::new(Val::Int(n)))));
    }
    assert!(val_eq(&items[5], &Val::VErr(Box::new(Val::Unit))));
    assert_eq!(items.len(), 6);
}

#[test]
fn generators_test_early_return() {
    // fn* early_return() yields i32
    // { let mut x = Some(3); let y = x.take()?; yield y; let y = x.take()?; yield y; }
    let ts = toks(vec![
        p(Punct::Star),
        kw(Name::KwFn),
        p(Punct::Star),
        id(23),
        grp(Delim::Paren, vec![]),
        kw(Name::KwYields),
        id(100),
        grp(
            Delim::Brace,
            vec![
                kw(Name::KwLet),
                kw(Name::KwMut),
                id(2),
                p(Punct::Eq),
                kw(Name::CtorSome),
                grp(Delim::Paren, vec![lit(3)]),
                p(Punct::Semi),
                kw(Name::KwLet),
                id(3),
                p(Punct::Eq),
                id(2),
                p(Punct::Dot),
                kw(Name::MethTake),
                grp(Delim::Paren, vec![]),
                p(Punct::Question),
                p(Punct::Semi),
                kw(Name::KwYield),
                id(3),
                p(Punct::Semi),
                kw(Name::KwLet),
                id(3),
                p(Punct::Eq),
                id(2),
                p(Punct::Dot),
                kw(Name::MethTake),
                grp(Delim::Paren, vec![]),
                p(Punct::Question),
                p(Punct::Semi),
                kw(Name::KwYield),
                id(3),
                p(Punct::Semi),
            ],
        ),
    ]);
    let (lf, diags) = expand_generator(ts);
    assert!(diags.is_empty());
    let result = iterator_of(lf.producer, Env::Nil).unwrap();
    let items = result.into_items(1_000_000).unwrap();
    expect_ints(&items, &[3]);
}

#[test]
fn generators_test_foo_method() {
    // fn* method(&mut self) yields i32 { while let Some(n) = self.0.take() { yield n; } }
    let ts = toks(vec![
        p(Punct::Star),
        kw(Name::KwFn),
        p(Punct::Star),
        id(24),
        grp(
            Delim::Paren,
            vec![p(Punct::Amp), kw(Name::KwMut), kw(Name::KwSelfValue)],
        ),
        kw(Name::KwYields),
        id(100),
        grp(
            Delim::Brace,
            vec![
                kw(Name::KwWhile),
                kw(Name::KwLet),
                kw(Name::CtorSome),
                grp(Delim::Paren, vec![id(1)]),
                p(Punct::Eq),
                kw(Name::KwSelfValue),
                p(Punct::Dot),
                lit(0),
                p(Punct::Dot),
                kw(Name::MethTake),
                grp(Delim::Paren, vec![]),
                grp(Delim::Brace, vec![kw(Name::KwYield), id(1), p(Punct::Semi)]),
            ],
        ),
    ]);
    let (lf, diags) = expand_generator(ts);
    assert!(diags.is_empty());
    let env = env1(Place::SelfField(0), Val::VSome(Box::new(Val::Int(0))));
    let iter = iterator_of(lf.producer, env).unwrap();
    let items = iter.into_items(1_000_000).unwrap();
    expect_ints(&items, &[0]);
}
