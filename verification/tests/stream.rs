//! Asynchronous declarations, driven end to end through the poll-based
//! producer: every suspension arrives as a ready poll carrying its value.

use iterator_item::driver::{Binding, Env, Val, ValList, val_eq};
use iterator_item::expr::Place;
use iterator_item::grammar::{iterator_item, Expanded};
use iterator_item::item::{stream_of, Polled};
use iterator_item::token::{toks, Delim, Name, Punct, Tok, TokList};

fn kw(n: Name) -> Tok {
    Tok::Ident(n)
}

fn id(n: u32) -> Tok {
    Tok::Ident(Name::User(n))
}

fn p(x: Punct) -> Tok {
    Tok::Punct(x)
}

fn lit(v: u64) -> Tok {
    Tok::LitInt(v)
}

fn grp(d: Delim, v: Vec<Tok>) -> Tok {
    Tok::Group(d, Box::new(toks(v)))
}

fn env1(place: Place, val: Val) -> Env {
    Env::Cons(Binding { place, val }, Box::new(Env::Nil))
}

fn expand_generator(ts: TokList) -> iterator_item::ast::LoweredFn {
    let ex = iterator_item(ts, 1_000_000);
    assert!(ex.diags.is_empty());
    match ex.result {
        Ok(Expanded::Generator(lf)) => lf,
        Ok(Expanded::Plain(_)) => panic!("expected a generator declaration"),
        Err(_) => panic!("expansion failed"),
    }
}

fn ready_values(polls: Vec<Polled>) -> Vec<Val> {
    let mut out = Vec::new();
    for q in polls {
        match q {
            Polled::Ready(v) => out.push(v),
            Polled::Pending => panic!("no pending polls expected"),
        }
    }
    out
}

#[test]
fn stream_test_foo() {
    // async fn* foo<F: Future>(fut: F) yields i32 { yield 0; yield fut.await; yield 2; }
    let ts = toks(vec![
        p(Punct::Star),
        kw(Name::KwAsync),
        kw(Name::KwFn),
        p(Punct::Star),
        id(20),
        p(Punct::Lt),
        id(40),
        p(Punct::Colon),
        id(41),
        p(Punct::Gt),
        grp(Delim::Paren, vec![id(8), p(Punct::Colon), id(40)]),
        kw(Name::KwYields),
        id(100),
        grp(
            Delim::Brace,
            vec![
                kw(Name::KwYield),
                lit(0),
                p(Punct::Semi),
                kw(Name::KwYield),
                id(8),
                p(Punct::Dot),
                kw(Name::KwAwait),
                p(Punct::Semi),
                kw(Name::KwYield),
                lit(2),
                p(Punct::Semi),
            ],
        ),
    ]);
    let lf = expand_generator(ts);
    let env = env1(Place::Var(Name::User(8)), Val::VFut(Box::new(Val::Int(1))));
    let foo = stream_of(lf.producer, env).unwrap();
    let items = ready_values(foo.into_polls(1_000_000).unwrap());
    let mut x: i64 = 0;
    for v in &items {
        assert!(val_eq(v, &Val::Int(x)));
        x += 1;
    }
    assert_eq!(x, 3);
}

#[test]
fn test_stream() {
    // async fn* stream<T, F: Future>(futures: Vec<F>) yields T
    // { for future in futures { yield future.await; } }
    let ts = toks(vec![
        p(Punct::Star),
        kw(Name::KwAsync),
        kw(Name::KwFn),
        p(Punct::Star),
        id(26),
        p(Punct::Lt),
        id(42),
        p(Punct::Comma),
        id(40),
        p(Punct::Colon),
        id(41),
        p(Punct::Gt),
        grp(Delim::Paren, vec![id(10), p(Punct::Colon), id(102)]),
        kw(Name::KwYields),
        id(42),
        grp(
            Delim::Brace,
            vec![
                kw(Name::KwFor),
                id(9),
                kw(Name::KwIn),
                id(10),
                grp(
                    Delim::Brace,
                    vec![
                        kw(Name::KwYield),
                        id(9),
                        p(Punct::Dot),
                        kw(Name::KwAwait),
                        p(Punct::Semi),
                    ],
                ),
            ],
        ),
    ]);
    let lf = expand_generator(ts);
    let futs = ValList::Cons(
        Val::VFut(Box::new(Val::Int(1))),
        Box::new(
            ValList::Cons(
                Val::VFut(Box::new(Val::Int(2))),
                Box::new(
                    ValList::Cons(Val::VFut(Box::new(Val::Int(3))), Box::new(ValList::Nil)),
                ),
            ),
        ),
    );
    let env = env1(Place::Var(Name::User(10)), Val::VList(Box::new(futs)));
    let stream = stream_of(lf.producer, env).unwrap();
    let items = ready_values(stream.into_polls(1_000_000).unwrap());
    let mut x: i64 = 0;
    for v in &items {
        x += 1;
        assert!(val_eq(v, &Val::Int(x)));
    }
    assert_eq!(x, 3);
}

#[test]
fn stream_test_result() {
    // async fn* result() yields Result<i32, ()>
    // { for n in 0..5 { yield Ok(n); } Err(())?; yield Ok(10); }
    let ts = toks(vec![
        p(Punct::Star),
        kw(Name::KwAsync),
        kw(Name::KwFn),
        p(Punct::Star),
        id(22),
        grp(Delim::Paren, vec![]),
        kw(Name::KwYields),
        kw(Name::TyResult),
        p(Punct::Lt),
        id(100),
        p(Punct::Comma),
        grp(Delim::Paren, vec![]),
        p(Punct::Gt),
        grp(
            Delim::Brace,
            vec![
                kw(Name::KwFor),
                id(1),
                kw(Name::KwIn),
                lit(0),
                p(Punct::DotDot),
                lit(5),
                grp(
                    Delim::Brace,
                    vec![
                        kw(Name::KwYield),
                        kw(Name::CtorOk),
                        grp(Delim::Paren, vec![id(1)]),
                        p(Punct::Semi),
                    ],
                ),
                kw(Name::CtorErr),
                grp(Delim::Paren, vec![grp(Delim::Paren, vec![])]),
                p(Punct::Question),
                p(Punct::Semi),
                kw(Name::KwYield),
                kw(Name::CtorOk),
                grp(Delim::Paren, vec![lit(10)]),
                p(Punct::Semi),
            ],
        ),
    ]);
    let lf = expand_generator(ts);
    let result = stream_of(lf.producer, Env::Nil).unwrap();
    let items = ready_values(result.into_polls(1_000_000).unwrap());
    for n in 0..5i64 {
        assert!(val_eq(&items[n as usize], &Val::VOk(Box::new(Val::Int(n)))));
    }
    assert!(val_eq(&items[5], &Val::VErr(Box::new(Val::Unit))));
    assert_eq!(items.len(), 6);
}
