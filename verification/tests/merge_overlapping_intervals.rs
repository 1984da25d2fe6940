//! The interval-merging generator, driven end to end: a declaration that
//! pulls sorted intervals from its argument, merges neighbours while they
//! touch, and yields each finished interval — checked against a plain
//! by-hand implementation of the same merge.

use iterator_item::driver::{Binding, Env, Val, ValList};
use iterator_item::expr::Place;
use iterator_item::grammar::{iterator_item, Expanded};
use iterator_item::item::iterator_of;
use iterator_item::token::{toks, Delim, Name, Punct, Tok, TokList};

fn kw(n: Name) -> Tok {
    Tok::Ident(n)
}

fn id(n: u32) -> Tok {
    Tok::Ident(Name::User(n))
}

fn p(x: Punct) -> Tok {
    Tok::Punct(x)
}

fn grp(d: Delim, v: Vec<Tok>) -> Tok {
    Tok::Group(d, Box::new(toks(v)))
}

/// The declaration, rebuilt for each run (expansion consumes its input):
/// fn* merge_overlapping_intervals(input: I) yields Interval {
///     let Some(mut prev) = input.next() else { return; };
///     for i in input {
///         if prev.overlaps(i) { prev = prev.merge(i); }
///         else { yield prev; prev = i; }
///     }
///     yield prev;
/// }
fn declaration() -> TokList {
    toks(vec![
        p(Punct::Star),
        kw(Name::KwFn),
        p(Punct::Star),
        id(63),
        grp(Delim::Paren, vec![id(60), p(Punct::Colon), id(101)]),
        kw(Name::KwYields),
        id(103),
        grp(
            Delim::Brace,
            vec![
                kw(Name::KwLet),
                kw(Name::CtorSome),
                grp(Delim::Paren, vec![kw(Name::KwMut), id(61)]),
                p(Punct::Eq),
                id(60),
                p(Punct::Dot),
                kw(Name::MethNext),
                grp(Delim::Paren, vec![]),
                kw(Name::KwElse),
                grp(Delim::Brace, vec![kw(Name::KwReturn), p(Punct::Semi)]),
                p(Punct::Semi),
                kw(Name::KwFor),
                id(62),
                kw(Name::KwIn),
                id(60),
                grp(
                    Delim::Brace,
                    vec![
                        kw(Name::KwIf),
                        id(61),
                        p(Punct::Dot),
                        kw(Name::MethOverlaps),
                        grp(Delim::Paren, vec![id(62)]),
                        grp(
                            Delim::Brace,
                            vec![
                                id(61),
                                p(Punct::Eq),
                                id(61),
                                p(Punct::Dot),
                                kw(Name::MethMerge),
                                grp(Delim::Paren, vec![id(62)]),
                                p(Punct::Semi),
                            ],
                        ),
                        kw(Name::KwElse),
                        grp(
                            Delim::Brace,
                            vec![
                                kw(Name::KwYield),
                                id(61),
                                p(Punct::Semi),
                                id(61),
                                p(Punct::Eq),
                                id(62),
                                p(Punct::Semi),
                            ],
                        ),
                    ],
                ),
                kw(Name::KwYield),
                id(61),
                p(Punct::Semi),
            ],
        ),
    ])
}

fn interval_list(intervals: &[(i64, i64)]) -> Val {
    let mut l = ValList::Nil;
    for (a, b) in intervals.iter().rev() {
        l = ValList::Cons(Val::VPair(*a, *b), Box::new(l));
    }
    Val::VList(Box::new(l))
}

fn run_merge(intervals: &[(i64, i64)]) -> Vec<(i64, i64)> {
    let ex = iterator_item(declaration(), 1_000_000);
    assert!(ex.diags.is_empty());
    let lf = match ex.result {
        Ok(Expanded::Generator(lf)) => lf,
        _ => panic!("expansion failed"),
    };
    let env = Env::Cons(
        Binding { place: Place::Var(Name::User(60)), val: interval_list(intervals) },
        Box::new(Env::Nil),
    );
    let it = iterator_of(lf.producer, env).unwrap();
    let items = it.into_items(1_000_000).unwrap();
    let mut out = Vec::new();
    for v in items {
        match v {
            Val::VPair(a, b) => out.push((a, b)),
            _ => panic!("the generator yields intervals"),
        }
    }
    out
}

fn overlaps(a: (i64, i64), b: (i64, i64)) -> bool {
    let (x, y) = if a.0 < b.0 { (a, b) } else { (b, a) };
    x.1 >= y.0
}

fn merge(a: (i64, i64), b: (i64, i64)) -> (i64, i64) {
    (a.0.min(b.0), a.1.max(b.1))
}

/// A by-hand merge of the same sorted input, for comparison.
fn handmade_merge_overlapping_intervals(input: &[(i64, i64)]) -> Vec<(i64, i64)> {
    let mut result = Vec::new();
    if input.is_empty() {
        return result;
    }
    let mut prev = input[0];
    for i in input.iter().copied() {
        if overlaps(prev, i) {
            prev = merge(prev, i);
        } else {
            result.push(prev);
            prev = i;
        }
    }
    result.push(prev);
    result
}

#[test]
fn test_merge_overlapping_intervals() {
    let intervals = [(1, 4), (3, 6), (8, 10), (9, 11)];
    let result = run_merge(&intervals);
    let handmade_result = handmade_merge_overlapping_intervals(&intervals);
    assert_eq!(&[(1, 6), (8, 11)][..], &result[..]);
    assert_eq!(&handmade_result[..], &result[..]);

    let intervals = [(1, 4)];
    let result = run_merge(&intervals);
    let handmade_result = handmade_merge_overlapping_intervals(&intervals);
    assert_eq!(&[(1, 4)][..], &result[..]);
    assert_eq!(&handmade_result[..], &result[..]);

    let intervals = [(1, 12), (3, 6), (8, 10), (9, 11)];
    let result = run_merge(&intervals);
    let handmade_result = handmade_merge_overlapping_intervals(&intervals);
    assert_eq!(&[(1, 12)][..], &result[..]);
    assert_eq!(&handmade_result[..], &result[..]);

    let intervals = [(1, 2), (3, 6), (8, 9), (10, 11)];
    let result = run_merge(&intervals);
    let handmade_result = handmade_merge_overlapping_intervals(&intervals);
    assert_eq!(
        &[(1, 2), (3, 6), (8, 9), (10, 11)][..],
        &result[..]
    );
    assert_eq!(&handmade_result[..], &result[..]);
}
