//! The surface syntax parser: token sequences into the body statement
//! grammar and the alternative item grammars.
//!
//! Every parser is pinned down from three sides: whenever it succeeds, its
//! input is exactly the rendering of what it returned followed by what it
//! left unconsumed; whenever it fails, the diagnostic is one of the kinds
//! the grammar can raise; and on stated families of rendered inputs, given
//! enough fuel, success with the expected parse is guaranteed. Parsing is
//! fueled; the fuel only bounds recursion depth and a run out of fuel is
//! reported as its own outcome, never as a parse.

use vstd::prelude::*;

use crate::ast::{Arg, ArgKind, ArgList, Attr, AttrList, GParam, GParams};
use crate::diag::{Diag, DiagKind, DiagLevel};
use crate::expr::{Expr, ExprList, MacArg, Place, Stmt, StmtList};
use crate::render::{
    render_arg, render_args, render_attr, render_attrs, render_expr, render_expr_commas,
    render_gparam, render_gparams, render_generics, render_place, render_stmt, render_stmts,
};
use crate::token::{
    Delim, LtName, Name, Punct, Tok, TokList, lemma_tok_append_assoc, lemma_tok_append_nil,
    tok_append,
};

verus! {

broadcast use crate::token::lemma_tok_append_nil;

/// The outcome of one parser: a parse and the unconsumed remainder, a
/// structured error, or exhausted fuel.
pub enum Parsed<T> {
    Good { v: T, rest: TokList },
    Bad(Diag),
    Spent,
}

/// What may follow a rendered expression without being mistaken for more
/// of it: anything but the postfix operators and the invocation marker.
pub open spec fn expr_boundary(ts: TokList) -> bool {
    match ts {
        TokList::Nil => true,
        TokList::Cons(t, rest) => t != Tok::Punct(Punct::Dot) && t != Tok::Punct(Punct::Question)
            && t != Tok::Punct(Punct::Bang),
    }
}

/// What may follow rendered annotations without being mistaken for one
/// more.
pub open spec fn attr_boundary(ts: TokList) -> bool {
    match ts {
        TokList::Nil => true,
        TokList::Cons(t, rest) => t != Tok::Punct(Punct::Pound),
    }
}

/// Whether the sequence holds a brace group at its top level.
pub open spec fn has_toplevel_brace(ts: TokList) -> bool
    decreases ts,
{
    match ts {
        TokList::Nil => false,
        TokList::Cons(t, rest) => (t matches Tok::Group(Delim::Brace, _)) || has_toplevel_brace(
            *rest,
        ),
    }
}

/// Splits the sequence before its first top-level brace group; nothing
/// comes back exactly when no top-level brace group exists.
pub fn slurp_until_brace(ts: TokList) -> (r: Option<(TokList, TokList)>)
    ensures
        match r {
            Option::Some(pair) => ts == tok_append(pair.0, pair.1) && (pair.1 matches TokList::Cons(
                Tok::Group(Delim::Brace, _),
                _,
            )),
            Option::None => true,
        },
        r is Some <==> has_toplevel_brace(ts),
    decreases ts,
{
    match ts {
        TokList::Nil => Option::None,
        TokList::Cons(t, rest) => match t {
            Tok::Group(Delim::Brace, inner) => Option::Some(
                (TokList::Nil, TokList::Cons(Tok::Group(Delim::Brace, inner), rest)),
            ),
            _ => match slurp_until_brace(*rest) {
                Option::Some((before, after)) => Option::Some(
                    (TokList::Cons(t, Box::new(before)), after),
                ),
                Option::None => Option::None,
            },
        },
    }
}

/// Whether a token closes a type at angle depth zero: a top-level comma.
fn slurp_ty(ts: TokList, depth: i64) -> (r: (TokList, TokList))
    requires
        0 <= depth <= 1000000,
    ensures
        ts == tok_append(r.0, r.1),
        r.1 matches TokList::Cons(t, _) ==> t == Tok::Punct(Punct::Comma),
    decreases ts,
{
    match ts {
        TokList::Nil => (TokList::Nil, TokList::Nil),
        TokList::Cons(t, rest) => match t {
            Tok::Punct(Punct::Comma) => {
                if depth == 0 {
                    (TokList::Nil, TokList::Cons(Tok::Punct(Punct::Comma), rest))
                } else {
                    let (a, b) = slurp_ty(*rest, depth);
                    (TokList::Cons(Tok::Punct(Punct::Comma), Box::new(a)), b)
                }
            },
            Tok::Punct(Punct::Lt) => {
                let d2 = if depth < 1000000 {
                    depth + 1
                } else {
                    depth
                };
                let (a, b) = slurp_ty(*rest, d2);
                (TokList::Cons(Tok::Punct(Punct::Lt), Box::new(a)), b)
            },
            Tok::Punct(Punct::Gt) => {
                let d2 = if depth > 0 {
                    depth - 1
                } else {
                    0
                };
                let (a, b) = slurp_ty(*rest, d2);
                (TokList::Cons(Tok::Punct(Punct::Gt), Box::new(a)), b)
            },
            _ => {
                let (a, b) = slurp_ty(*rest, depth);
                (TokList::Cons(t, Box::new(a)), b)
            },
        },
    }
}

/// Splits a generic-parameter bound before the comma or closing angle that
/// ends it (at angle depth zero).
fn slurp_bound(ts: TokList, depth: i64) -> (r: (TokList, TokList))
    requires
        0 <= depth <= 1000000,
    ensures
        ts == tok_append(r.0, r.1),
        r.1 matches TokList::Cons(t, _) ==> (t == Tok::Punct(Punct::Comma) || t == Tok::Punct(
            Punct::Gt,
        )),
    decreases ts,
{
    match ts {
        TokList::Nil => (TokList::Nil, TokList::Nil),
        TokList::Cons(t, rest) => match t {
            Tok::Punct(Punct::Comma) => {
                if depth == 0 {
                    (TokList::Nil, TokList::Cons(Tok::Punct(Punct::Comma), rest))
                } else {
                    let (a, b) = slurp_bound(*rest, depth);
                    (TokList::Cons(Tok::Punct(Punct::Comma), Box::new(a)), b)
                }
            },
            Tok::Punct(Punct::Lt) => {
                let d2 = if depth < 1000000 {
                    depth + 1
                } else {
                    depth
                };
                let (a, b) = slurp_bound(*rest, d2);
                (TokList::Cons(Tok::Punct(Punct::Lt), Box::new(a)), b)
            },
            Tok::Punct(Punct::Gt) => {
                if depth == 0 {
                    (TokList::Nil, TokList::Cons(Tok::Punct(Punct::Gt), rest))
                } else {
                    let (a, b) = slurp_bound(*rest, depth - 1);
                    (TokList::Cons(Tok::Punct(Punct::Gt), Box::new(a)), b)
                }
            },
            _ => {
                let (a, b) = slurp_bound(*rest, depth);
                (TokList::Cons(t, Box::new(a)), b)
            },
        },
    }
}

/// Parses zero or more leading annotations.
pub fn parse_attrs(ts: TokList, fuel: u64) -> (r: Parsed<AttrList>)
    ensures
        r matches Parsed::Good { v, rest } ==> ts == tok_append(render_attrs(v), rest),
        r matches Parsed::Bad(d) ==> d.level == DiagLevel::Error && d.kind
            == DiagKind::UnexpectedToken,
        attr_boundary(ts) && fuel >= 1 ==> r == (Parsed::Good { v: AttrList::Nil, rest: ts }),
    decreases fuel,
{
    proof {
        reveal_with_fuel(tok_append, 5);
    }
    if fuel == 0 {
        return Parsed::Spent;
    }
    match ts {
        TokList::Cons(Tok::Punct(Punct::Pound), r1) => match *r1 {
            TokList::Cons(Tok::Group(Delim::Bracket, inner), r2) => match *inner {
                TokList::Cons(Tok::Ident(nm), args) => {
                    match parse_attrs(*r2, fuel - 1) {
                        Parsed::Good { v, rest } => {
                            proof {
                                lemma_tok_append_assoc(
                                    render_attr(Attr { name: nm, args: *args }),
                                    render_attrs(v),
                                    rest,
                                );
                            }
                            Parsed::Good {
                                v: AttrList::Cons(Attr { name: nm, args: *args }, Box::new(v)),
                                rest,
                            }
                        },
                        other => other,
                    }
                },
                _ => Parsed::Bad(Diag::error(DiagKind::UnexpectedToken)),
            },
            _ => Parsed::Bad(Diag::error(DiagKind::UnexpectedToken)),
        },
        other => Parsed::Good { v: AttrList::Nil, rest: other },
    }
}

/// Parses the parenthesized argument of a value constructor, given the
/// constructor's name and what follows it.
fn parse_wrap_ctor(n: Name, ts: TokList, fuel: u64) -> (r: Parsed<Expr>)
    requires
        n == Name::CtorSome || n == Name::CtorOk || n == Name::CtorErr || n == Name::CtorReady,
    ensures
        r matches Parsed::Good { v, rest } ==> TokList::Cons(Tok::Ident(n), Box::new(ts))
            == tok_append(render_expr(v), rest),
        r matches Parsed::Bad(d) ==> d.level == DiagLevel::Error && d.kind
            == DiagKind::UnexpectedToken,
    decreases fuel,
{
    proof {
        reveal_with_fuel(tok_append, 4);
        reveal_with_fuel(render_expr, 2);
    }
    if fuel == 0 {
        return Parsed::Spent;
    }
    match ts {
        TokList::Cons(Tok::Group(Delim::Paren, inner), r2) => {
            match parse_full_expr(*inner, fuel - 1) {
                Parsed::Good { v, rest: _ } => {
                    let e2 = match n {
                        Name::CtorSome => Expr::SomeOf(Box::new(v)),
                        Name::CtorOk => Expr::OkOf(Box::new(v)),
                        Name::CtorErr => Expr::ErrOf(Box::new(v)),
                        _ => Expr::ReadyOf(Box::new(v)),
                    };
                    Parsed::Good { v: e2, rest: *r2 }
                },
                other => other,
            }
        },
        _ => Parsed::Bad(Diag::error(DiagKind::UnexpectedToken)),
    }
}

/// Parses a macro invocation or a plain read, given an identifier and what
/// follows it.
fn parse_mac_or_read(n: Name, ts: TokList, fuel: u64) -> (r: Parsed<Expr>)
    ensures
        r matches Parsed::Good { v, rest } ==> TokList::Cons(Tok::Ident(n), Box::new(ts))
            == tok_append(render_expr(v), rest),
        r matches Parsed::Bad(d) ==> d.level == DiagLevel::Error && d.kind
            == DiagKind::UnexpectedToken,
    decreases fuel,
{
    proof {
        reveal_with_fuel(tok_append, 4);
        reveal_with_fuel(render_expr, 2);
        reveal_with_fuel(crate::render::render_mac_arg, 2);
    }
    if fuel == 0 {
        return Parsed::Spent;
    }
    match ts {
        TokList::Cons(Tok::Punct(Punct::Bang), r2) => match *r2 {
            TokList::Cons(Tok::Group(Delim::Brace, inner), r3) => {
                let inner_copy = crate::token::toklist_clone(&inner);
                match parse_stmts(inner_copy, fuel - 1) {
                    Parsed::Good { v: body, rest: _ } => {
                        proof {
                            assert(render_stmts(body) == *inner);
                        }
                        Parsed::Good {
                            v: Expr::MacCall { name: n, mac: MacArg::Parsed(Box::new(body)) },
                            rest: *r3,
                        }
                    },
                    Parsed::Bad(_) => {
                        proof {
                            assert(TokList::Cons(Tok::Ident(n), Box::new(ts)) == tok_append(
                                render_expr(Expr::MacCall { name: n, mac: MacArg::Raw(*inner) }),
                                *r3,
                            ));
                        }
                        Parsed::Good {
                            v: Expr::MacCall { name: n, mac: MacArg::Raw(*inner) },
                            rest: *r3,
                        }
                    },
                    Parsed::Spent => Parsed::Spent,
                }
            },
            _ => Parsed::Bad(Diag::error(DiagKind::UnexpectedToken)),
        },
        other1 => Parsed::Good { v: Expr::Read(Place::Var(n)), rest: other1 },
    }
}

/// Parses one primary expression.
fn parse_prim(ts: TokList, fuel: u64) -> (r: Parsed<Expr>)
    ensures
        r matches Parsed::Good { v, rest } ==> ts == tok_append(render_expr(v), rest),
        r matches Parsed::Bad(d) ==> d.level == DiagLevel::Error && d.kind
            == DiagKind::UnexpectedToken,
    decreases fuel,
{
    proof {
        reveal_with_fuel(tok_append, 5);
        reveal_with_fuel(render_expr, 2);
    }
    if fuel == 0 {
        return Parsed::Spent;
    }
    match ts {
        TokList::Cons(Tok::LitInt(v), rest) => {
            if v <= 0x7fff_ffff_ffff_ffffu64 {
                Parsed::Good { v: Expr::IntLit(v as i64), rest: *rest }
            } else {
                Parsed::Bad(Diag::error(DiagKind::UnexpectedToken))
            }
        },
        TokList::Cons(Tok::Punct(Punct::DotDot), rest) => Parsed::Good {
            v: Expr::RangeFull,
            rest: *rest,
        },
        TokList::Cons(Tok::Group(Delim::Paren, inner), rest) => match *inner {
            TokList::Nil => Parsed::Good { v: Expr::Unit, rest: *rest },
            _ => Parsed::Bad(Diag::error(DiagKind::UnexpectedToken)),
        },
        TokList::Cons(Tok::Group(Delim::Bracket, inner), rest) => {
            match parse_comma_exprs(*inner, fuel - 1) {
                Parsed::Good { v, rest: inner_rest } => match inner_rest {
                    TokList::Nil => Parsed::Good {
                        v: Expr::ListLit(Box::new(v)),
                        rest: *rest,
                    },
                    _ => Parsed::Bad(Diag::error(DiagKind::UnexpectedToken)),
                },
                other => other_expr(other),
            }
        },
        TokList::Cons(Tok::Ident(Name::CtorNone), rest) => Parsed::Good {
            v: Expr::NoneLit,
            rest: *rest,
        },
        TokList::Cons(Tok::Ident(Name::CtorSome), r1) => parse_wrap_ctor(
            Name::CtorSome,
            *r1,
            fuel - 1,
        ),
        TokList::Cons(Tok::Ident(Name::CtorOk), r1) => parse_wrap_ctor(Name::CtorOk, *r1, fuel - 1),
        TokList::Cons(Tok::Ident(Name::CtorErr), r1) => parse_wrap_ctor(
            Name::CtorErr,
            *r1,
            fuel - 1,
        ),
        TokList::Cons(Tok::Ident(Name::CtorReady), r1) => parse_wrap_ctor(
            Name::CtorReady,
            *r1,
            fuel - 1,
        ),
        TokList::Cons(Tok::Ident(Name::KwSelfValue), r1) => match *r1 {
            TokList::Cons(Tok::Punct(Punct::Dot), r2) => match *r2 {
                TokList::Cons(Tok::LitInt(k), r3) => {
                    if k <= 0xffff_ffffu64 {
                        Parsed::Good { v: Expr::Read(Place::SelfField(k as u32)), rest: *r3 }
                    } else {
                        Parsed::Bad(Diag::error(DiagKind::UnexpectedToken))
                    }
                },
                _ => Parsed::Bad(Diag::error(DiagKind::UnexpectedToken)),
            },
            _ => Parsed::Bad(Diag::error(DiagKind::UnexpectedToken)),
        },
        TokList::Cons(Tok::Ident(n), r1) => parse_mac_or_read(n, *r1, fuel - 1),
        _ => Parsed::Bad(Diag::error(DiagKind::UnexpectedToken)),
    }
}
/// Narrows a failed outcome to the expression result type.
fn other_expr(p: Parsed<ExprList>) -> (r: Parsed<Expr>)
    requires
        p matches Parsed::Bad(d) ==> d.level == DiagLevel::Error && d.kind
            == DiagKind::UnexpectedToken,
    ensures
        !(r is Good),
        p is Spent <==> r is Spent,
        r matches Parsed::Bad(d) ==> d.level == DiagLevel::Error && d.kind
            == DiagKind::UnexpectedToken,
{
    match p {
        Parsed::Good { v, rest } => Parsed::Bad(Diag::error(DiagKind::UnexpectedToken)),
        Parsed::Bad(d) => Parsed::Bad(d),
        Parsed::Spent => Parsed::Spent,
    }
}

/// Parses the trailing postfix chain — method calls, `.await`, `?` — onto an
/// already parsed expression.
fn parse_postfix(e: Expr, ts: TokList, fuel: u64) -> (r: Parsed<Expr>)
    ensures
        r matches Parsed::Good { v, rest } ==> tok_append(render_expr(e), ts) == tok_append(
            render_expr(v),
            rest,
        ),
        r matches Parsed::Bad(d) ==> d.level == DiagLevel::Error && d.kind
            == DiagKind::UnexpectedToken,
        expr_boundary(ts) && fuel >= 1 ==> r == (Parsed::Good { v: e, rest: ts }),
    decreases fuel,
{
    proof {
        reveal_with_fuel(tok_append, 6);
    }
    if fuel == 0 {
        return Parsed::Spent;
    }
    match ts {
        TokList::Cons(Tok::Punct(Punct::Question), r1) => {
            proof {
                lemma_tok_append_assoc(
                    render_expr(e),
                    crate::render::one(Tok::Punct(Punct::Question)),
                    *r1,
                );
            }
            parse_postfix(Expr::TryExpr(Box::new(e)), *r1, fuel - 1)
        },
        TokList::Cons(Tok::Punct(Punct::Dot), r1) => match *r1 {
            TokList::Cons(Tok::Ident(Name::KwAwait), r2) => {
                proof {
                    lemma_tok_append_assoc(
                        render_expr(e),
                        crate::render::two(Tok::Punct(Punct::Dot), Tok::Ident(Name::KwAwait)),
                        *r2,
                    );
                }
                parse_postfix(Expr::AwaitExpr(Box::new(e)), *r2, fuel - 1)
            },
            TokList::Cons(Tok::Ident(mname), r2) => match *r2 {
                TokList::Cons(Tok::Group(Delim::Paren, argtoks), r3) => {
                    let is_take = match mname {
                        Name::MethTake => true,
                        _ => false,
                    };
                    let is_next = match mname {
                        Name::MethNext => true,
                        _ => false,
                    };
                    let is_interval_op = match mname {
                        Name::MethOverlaps => true,
                        Name::MethMerge => true,
                        _ => false,
                    };
                    let arg_empty = match *argtoks {
                        TokList::Nil => true,
                        _ => false,
                    };
                    if is_interval_op && !arg_empty {
                        match parse_full_expr(*argtoks, fuel - 1) {
                            Parsed::Good { v: a, rest: _ } => {
                                proof {
                                    lemma_tok_append_assoc(
                                        render_expr(e),
                                        TokList::Cons(
                                            Tok::Punct(Punct::Dot),
                                            Box::new(
                                                crate::render::two(
                                                    Tok::Ident(mname),
                                                    Tok::Group(
                                                        Delim::Paren,
                                                        Box::new(render_expr(a)),
                                                    ),
                                                ),
                                            ),
                                        ),
                                        *r3,
                                    );
                                }
                                let e2 = match mname {
                                    Name::MethOverlaps => Expr::OverlapsOf {
                                        recv: Box::new(e),
                                        arg: Box::new(a),
                                    },
                                    _ => Expr::MergeOf { recv: Box::new(e), arg: Box::new(a) },
                                };
                                parse_postfix(e2, *r3, fuel - 1)
                            },
                            other => other,
                        }
                    } else if (is_take || is_next) && arg_empty {
                        match e {
                            Expr::Read(p) => {
                                let e2 = if is_take {
                                    Expr::TakeOf(p)
                                } else {
                                    Expr::NextOf(p)
                                };
                                proof {
                                    lemma_tok_append_assoc(
                                        render_place(p),
                                        TokList::Cons(
                                            Tok::Punct(Punct::Dot),
                                            Box::new(
                                                crate::render::two(
                                                    Tok::Ident(mname),
                                                    Tok::Group(
                                                        Delim::Paren,
                                                        Box::new(TokList::Nil),
                                                    ),
                                                ),
                                            ),
                                        ),
                                        *r3,
                                    );
                                }
                                parse_postfix(e2, *r3, fuel - 1)
                            },
                            not_place => {
                                proof {
                                    lemma_tok_append_assoc(
                                        render_expr(not_place),
                                        TokList::Cons(
                                            Tok::Punct(Punct::Dot),
                                            Box::new(
                                                crate::render::two(
                                                    Tok::Ident(mname),
                                                    Tok::Group(
                                                        Delim::Paren,
                                                        Box::new(TokList::Nil),
                                                    ),
                                                ),
                                            ),
                                        ),
                                        *r3,
                                    );
                                }
                                let e2 = Expr::CallOpaque {
                                    method: mname,
                                    recv: Box::new(not_place),
                                    arg: Option::None,
                                };
                                parse_postfix(e2, *r3, fuel - 1)
                            },
                        }
                    } else if arg_empty {
                        proof {
                            lemma_tok_append_assoc(
                                render_expr(e),
                                TokList::Cons(
                                    Tok::Punct(Punct::Dot),
                                    Box::new(
                                        crate::render::two(
                                            Tok::Ident(mname),
                                            Tok::Group(Delim::Paren, Box::new(TokList::Nil)),
                                        ),
                                    ),
                                ),
                                *r3,
                            );
                        }
                        let e2 = Expr::CallOpaque {
                            method: mname,
                            recv: Box::new(e),
                            arg: Option::None,
                        };
                        parse_postfix(e2, *r3, fuel - 1)
                    } else {
                        match parse_full_expr(*argtoks, fuel - 1) {
                            Parsed::Good { v: a, rest: _ } => {
                                proof {
                                    lemma_tok_append_assoc(
                                        render_expr(e),
                                        TokList::Cons(
                                            Tok::Punct(Punct::Dot),
                                            Box::new(
                                                crate::render::two(
                                                    Tok::Ident(mname),
                                                    Tok::Group(
                                                        Delim::Paren,
                                                        Box::new(render_expr(a)),
                                                    ),
                                                ),
                                            ),
                                        ),
                                        *r3,
                                    );
                                }
                                let e2 = Expr::CallOpaque {
                                    method: mname,
                                    recv: Box::new(e),
                                    arg: Option::Some(Box::new(a)),
                                };
                                parse_postfix(e2, *r3, fuel - 1)
                            },
                            other => other,
                        }
                    }
                },
                _ => Parsed::Bad(Diag::error(DiagKind::UnexpectedToken)),
            },
            _ => Parsed::Bad(Diag::error(DiagKind::UnexpectedToken)),
        },
        other1 => Parsed::Good { v: e, rest: other1 },
    }
}

/// Parses one expression.
pub fn parse_expr(ts: TokList, fuel: u64) -> (r: Parsed<Expr>)
    ensures
        r matches Parsed::Good { v, rest } ==> ts == tok_append(render_expr(v), rest),
        r matches Parsed::Bad(d) ==> d.level == DiagLevel::Error && d.kind
            == DiagKind::UnexpectedToken,
        ts matches TokList::Cons(Tok::LitInt(n), rest2) ==> n <= 0x7fff_ffff_ffff_ffff ==> expr_boundary(
            *rest2,
        ) ==> fuel >= 3 ==> r == (Parsed::Good { v: Expr::IntLit(n as i64), rest: *rest2 }),
    decreases fuel,
{
    proof {
        reveal_with_fuel(tok_append, 5);
    }
    if fuel == 0 {
        return Parsed::Spent;
    }
    match ts {
        TokList::Cons(Tok::Ident(Name::KwYield), r1) => match *r1 {
            TokList::Nil => Parsed::Good { v: Expr::YieldExpr(Option::None), rest: TokList::Nil },
            TokList::Cons(Tok::Punct(Punct::Semi), r2) => Parsed::Good {
                v: Expr::YieldExpr(Option::None),
                rest: TokList::Cons(Tok::Punct(Punct::Semi), r2),
            },
            other1 => match parse_expr(other1, fuel - 1) {
                Parsed::Good { v, rest } => Parsed::Good {
                    v: Expr::YieldExpr(Option::Some(Box::new(v))),
                    rest,
                },
                other => other,
            },
        },
        TokList::Cons(Tok::Ident(Name::KwReturn), r1) => match *r1 {
            TokList::Nil => Parsed::Good { v: Expr::RetExpr(Option::None), rest: TokList::Nil },
            TokList::Cons(Tok::Punct(Punct::Semi), r2) => Parsed::Good {
                v: Expr::RetExpr(Option::None),
                rest: TokList::Cons(Tok::Punct(Punct::Semi), r2),
            },
            other1 => match parse_expr(other1, fuel - 1) {
                Parsed::Good { v, rest } => Parsed::Good {
                    v: Expr::RetExpr(Option::Some(Box::new(v))),
                    rest,
                },
                other => other,
            },
        },
        TokList::Cons(Tok::Punct(Punct::Minus), r1) => match parse_expr(*r1, fuel - 1) {
            Parsed::Good { v, rest } => Parsed::Good { v: Expr::NegOf(Box::new(v)), rest },
            other => other,
        },
        TokList::Cons(Tok::LitInt(n), r1) => {
            if n <= 0x7fff_ffff_ffff_ffffu64 {
                parse_postfix(Expr::IntLit(n as i64), *r1, fuel - 1)
            } else {
                Parsed::Bad(Diag::error(DiagKind::UnexpectedToken))
            }
        },
        other0 => match parse_prim(other0, fuel - 1) {
            Parsed::Good { v: e1, rest: ts1 } => parse_postfix(e1, ts1, fuel - 1),
            other => other,
        },
    }
}

/// Parses an expression that must consume its whole input.
fn parse_full_expr(ts: TokList, fuel: u64) -> (r: Parsed<Expr>)
    ensures
        r matches Parsed::Good { v, rest } ==> ts == render_expr(v) && rest == TokList::Nil,
        r matches Parsed::Bad(d) ==> d.level == DiagLevel::Error && d.kind
            == DiagKind::UnexpectedToken,
        ts matches TokList::Cons(Tok::LitInt(n), rest2) ==> n <= 0x7fff_ffff_ffff_ffff ==> *rest2
            == TokList::Nil ==> fuel >= 4 ==> r == (Parsed::Good {
            v: Expr::IntLit(n as i64),
            rest: TokList::Nil,
        }),
    decreases fuel,
{
    if fuel == 0 {
        return Parsed::Spent;
    }
    match parse_expr(ts, fuel - 1) {
        Parsed::Good { v, rest } => match rest {
            TokList::Nil => Parsed::Good { v, rest: TokList::Nil },
            _ => Parsed::Bad(Diag::error(DiagKind::UnexpectedToken)),
        },
        other => other,
    }
}

/// Parses a comma-separated expression sequence, stopping at the first
/// token that fits no expression.
fn parse_comma_exprs(ts: TokList, fuel: u64) -> (r: Parsed<ExprList>)
    ensures
        r matches Parsed::Good { v, rest } ==> ts == tok_append(render_expr_commas(v), rest),
        r matches Parsed::Bad(d) ==> d.level == DiagLevel::Error && d.kind
            == DiagKind::UnexpectedToken,
        ts is Nil && fuel >= 1 ==> r == (Parsed::Good { v: ExprList::Nil, rest: TokList::Nil }),
    decreases fuel,
{
    proof {
        reveal_with_fuel(tok_append, 5);
    }
    if fuel == 0 {
        return Parsed::Spent;
    }
    match ts {
        TokList::Nil => Parsed::Good { v: ExprList::Nil, rest: TokList::Nil },
        other0 => match parse_expr(other0, fuel - 1) {
            Parsed::Good { v: e, rest: r1 } => match r1 {
                TokList::Cons(Tok::Punct(Punct::Comma), r2) => {
                    match parse_comma_exprs(*r2, fuel - 1) {
                        Parsed::Good { v: l2, rest } => {
                            let good = match l2 {
                                ExprList::Nil => false,
                                _ => true,
                            };
                            if good {
                                proof {
                                    lemma_tok_append_assoc(
                                        render_expr(e),
                                        TokList::Cons(
                                            Tok::Punct(Punct::Comma),
                                            Box::new(render_expr_commas(l2)),
                                        ),
                                        rest,
                                    );
                                }
                                Parsed::Good {
                                    v: ExprList::Cons(e, Box::new(l2)),
                                    rest,
                                }
                            } else {
                                Parsed::Bad(Diag::error(DiagKind::UnexpectedToken))
                            }
                        },
                        other => other,
                    }
                },
                other1 => Parsed::Good {
                    v: ExprList::Cons(e, Box::new(ExprList::Nil)),
                    rest: other1,
                },
            },
            other => other_elist(other),
        },
    }
}

/// Narrows a failed expression outcome to the sequence result type.
fn other_elist(p: Parsed<Expr>) -> (r: Parsed<ExprList>)
    requires
        p matches Parsed::Bad(d) ==> d.level == DiagLevel::Error && d.kind
            == DiagKind::UnexpectedToken,
    ensures
        !(r is Good),
        p is Spent <==> r is Spent,
        r matches Parsed::Bad(d) ==> d.level == DiagLevel::Error && d.kind
            == DiagKind::UnexpectedToken,
{
    match p {
        Parsed::Good { v, rest } => Parsed::Bad(Diag::error(DiagKind::UnexpectedToken)),
        Parsed::Bad(d) => Parsed::Bad(d),
        Parsed::Spent => Parsed::Spent,
    }
}

/// Parses a suspension statement, given what follows the `yield` keyword:
/// a bare `yield ;`, or `yield <expr> ;`.
fn parse_yield_stmt(ts: TokList, fuel: u64) -> (r: Parsed<Stmt>)
    ensures
        r matches Parsed::Good { v, rest } ==> TokList::Cons(
            Tok::Ident(Name::KwYield),
            Box::new(ts),
        ) == tok_append(render_stmt(v), rest),
        r matches Parsed::Bad(d) ==> d.level == DiagLevel::Error && d.kind
            == DiagKind::UnexpectedToken,
        ts matches TokList::Cons(Tok::LitInt(n), r2) ==> (n <= 0x7fff_ffff_ffff_ffff ==> (*r2
            matches TokList::Cons(Tok::Punct(Punct::Semi), tail) ==> (fuel >= 5 ==> r
            == (Parsed::Good {
            v: Stmt::ExprStmt(Expr::YieldExpr(Option::Some(Box::new(Expr::IntLit(n as i64))))),
            rest: *tail,
        })))),
        ts matches TokList::Cons(Tok::Punct(Punct::Semi), tail) ==> (fuel >= 1 ==> r
            == (Parsed::Good { v: Stmt::ExprStmt(Expr::YieldExpr(Option::None)), rest: *tail })),
    decreases fuel,
{
    proof {
        reveal_with_fuel(tok_append, 4);
    }
    if fuel == 0 {
        return Parsed::Spent;
    }
    match ts {
        TokList::Cons(Tok::Punct(Punct::Semi), tail) => Parsed::Good {
            v: Stmt::ExprStmt(Expr::YieldExpr(Option::None)),
            rest: *tail,
        },
        other0 => match parse_expr(other0, fuel - 1) {
            Parsed::Good { v: e, rest: r2 } => match r2 {
                TokList::Cons(Tok::Punct(Punct::Semi), tail) => {
                    proof {
                        lemma_tok_append_assoc(
                            render_expr(e),
                            crate::render::one(Tok::Punct(Punct::Semi)),
                            *tail,
                        );
                    }
                    Parsed::Good {
                        v: Stmt::ExprStmt(Expr::YieldExpr(Option::Some(Box::new(e)))),
                        rest: *tail,
                    }
                },
                _ => Parsed::Bad(Diag::error(DiagKind::UnexpectedToken)),
            },
            other => other_stmt(other),
        },
    }
}

/// Parses a two-armed conditional statement, given what follows the `if`
/// keyword.
fn parse_if_stmt(ts: TokList, fuel: u64) -> (r: Parsed<Stmt>)
    ensures
        r matches Parsed::Good { v, rest } ==> TokList::Cons(
            Tok::Ident(Name::KwIf),
            Box::new(ts),
        ) == tok_append(render_stmt(v), rest),
        r matches Parsed::Bad(d) ==> d.level == DiagLevel::Error && d.kind
            == DiagKind::UnexpectedToken,
    decreases fuel,
{
    proof {
        reveal_with_fuel(tok_append, 6);
        reveal_with_fuel(render_stmt, 2);
        reveal_with_fuel(crate::render::render_mac_arg, 2);
    }
    if fuel == 0 {
        return Parsed::Spent;
    }
    match parse_expr(ts, fuel - 1) {
            Parsed::Good { v: cond, rest: r2 } => match r2 {
                TokList::Cons(Tok::Group(Delim::Brace, tinner), r3) => {
                    match parse_stmts(*tinner, fuel - 1) {
                        Parsed::Good { v: then_b, rest: _ } => match *r3 {
                            TokList::Cons(Tok::Ident(Name::KwElse), r4) => match *r4 {
                                TokList::Cons(Tok::Group(Delim::Brace, einner), r5) => {
                                    match parse_stmts(*einner, fuel - 1) {
                                        Parsed::Good { v: else_b, rest: _ } => {
                                            proof {
                                                lemma_tok_append_assoc(
                                                    render_expr(cond),
                                                    TokList::Cons(
                                                        Tok::Group(
                                                            Delim::Brace,
                                                            Box::new(render_stmts(then_b)),
                                                        ),
                                                        Box::new(
                                                            crate::render::two(
                                                                Tok::Ident(Name::KwElse),
                                                                Tok::Group(
                                                                    Delim::Brace,
                                                                    Box::new(
                                                                        render_stmts(else_b),
                                                                    ),
                                                                ),
                                                            ),
                                                        ),
                                                    ),
                                                    *r5,
                                                );
                                            }
                                            Parsed::Good {
                                                v: Stmt::IfElse {
                                                    cond,
                                                    then_body: Box::new(then_b),
                                                    else_body: Box::new(else_b),
                                                },
                                                rest: *r5,
                                            }
                                        },
                                        other => other_stmt2(other),
                                    }
                                },
                                _ => Parsed::Bad(Diag::error(DiagKind::UnexpectedToken)),
                            },
                            _ => Parsed::Bad(Diag::error(DiagKind::UnexpectedToken)),
                        },
                        other => other_stmt2(other),
                    }
                },
                _ => Parsed::Bad(Diag::error(DiagKind::UnexpectedToken)),
            },
            other => other_stmt(other),
        }
}

/// Parses a binding statement, given what follows the `let` keyword.
fn parse_let_stmt(ts: TokList, fuel: u64) -> (r: Parsed<Stmt>)
    ensures
        r matches Parsed::Good { v, rest } ==> TokList::Cons(
            Tok::Ident(Name::KwLet),
            Box::new(ts),
        ) == tok_append(render_stmt(v), rest),
        r matches Parsed::Bad(d) ==> d.level == DiagLevel::Error && d.kind
            == DiagKind::UnexpectedToken,
    decreases fuel,
{
    proof {
        reveal_with_fuel(tok_append, 6);
        reveal_with_fuel(render_stmt, 2);
        reveal_with_fuel(crate::render::render_mac_arg, 2);
    }
    if fuel == 0 {
        return Parsed::Spent;
    }
    {
            let is_let_else = match &ts {
                TokList::Cons(Tok::Ident(Name::CtorSome), _) => true,
                _ => false,
            };
            if is_let_else {
                return parse_let_some_else(ts, fuel - 1);
            }
            let (is_mut, r2) = match ts {
                TokList::Cons(Tok::Ident(Name::KwMut), r2) => (true, *r2),
                other1 => (false, other1),
            };
            match r2 {
                TokList::Cons(Tok::Ident(name), r3) => match *r3 {
                    TokList::Cons(Tok::Punct(Punct::Eq), r4) => match parse_expr(*r4, fuel - 1) {
                        Parsed::Good { v: init, rest: r5 } => match r5 {
                            TokList::Cons(Tok::Punct(Punct::Semi), r6) => {
                                proof {
                                    let mut_part = if is_mut {
                                        crate::render::one(Tok::Ident(Name::KwMut))
                                    } else {
                                        TokList::Nil
                                    };
                                    lemma_tok_append_assoc(
                                        mut_part,
                                        TokList::Cons(
                                            Tok::Ident(name),
                                            Box::new(
                                                TokList::Cons(
                                                    Tok::Punct(Punct::Eq),
                                                    Box::new(
                                                        tok_append(
                                                            render_expr(init),
                                                            crate::render::one(
                                                                Tok::Punct(Punct::Semi),
                                                            ),
                                                        ),
                                                    ),
                                                ),
                                            ),
                                        ),
                                        *r6,
                                    );
                                    lemma_tok_append_assoc(
                                        render_expr(init),
                                        crate::render::one(Tok::Punct(Punct::Semi)),
                                        *r6,
                                    );
                                }
                                Parsed::Good { v: Stmt::LetBind { is_mut, name, init }, rest: *r6 }
                            },
                            _ => Parsed::Bad(Diag::error(DiagKind::UnexpectedToken)),
                        },
                        other => other_stmt(other),
                    },
                    _ => Parsed::Bad(Diag::error(DiagKind::UnexpectedToken)),
                },
                _ => Parsed::Bad(Diag::error(DiagKind::UnexpectedToken)),
            }
        }
}

/// Parses a loop statement, given what follows the `for` keyword.
fn parse_for_stmt(ts: TokList, fuel: u64) -> (r: Parsed<Stmt>)
    ensures
        r matches Parsed::Good { v, rest } ==> TokList::Cons(
            Tok::Ident(Name::KwFor),
            Box::new(ts),
        ) == tok_append(render_stmt(v), rest),
        r matches Parsed::Bad(d) ==> d.level == DiagLevel::Error && d.kind
            == DiagKind::UnexpectedToken,
    decreases fuel,
{
    proof {
        reveal_with_fuel(tok_append, 6);
        reveal_with_fuel(render_stmt, 2);
        reveal_with_fuel(crate::render::render_mac_arg, 2);
    }
    if fuel == 0 {
        return Parsed::Spent;
    }
    match ts {
            TokList::Cons(Tok::Ident(var), r2) => match *r2 {
                TokList::Cons(Tok::Ident(Name::KwIn), r3) => match parse_expr(*r3, fuel - 1) {
                    Parsed::Good { v: e1, rest: r4 } => match r4 {
                        TokList::Cons(Tok::Punct(Punct::DotDot), r5) => {
                            match parse_for_range_end(var, e1, false, *r5, fuel - 1) {
                                Parsed::Good { v, rest } => {
                                    proof {
                                        let brace = crate::render::one(
                                            Tok::Group(
                                                Delim::Brace,
                                                Box::new(render_stmts(*v->ForRange_body)),
                                            ),
                                        );
                                        lemma_tok_append_assoc(
                                            render_expr(v->ForRange_lo),
                                            TokList::Cons(
                                                Tok::Punct(Punct::DotDot),
                                                Box::new(
                                                    tok_append(render_expr(v->ForRange_hi), brace),
                                                ),
                                            ),
                                            rest,
                                        );
                                        lemma_tok_append_assoc(
                                            render_expr(v->ForRange_hi),
                                            brace,
                                            rest,
                                        );
                                    }
                                    Parsed::Good { v, rest }
                                },
                                other => other,
                            }
                        },
                        TokList::Cons(Tok::Punct(Punct::DotDotEq), r5) => {
                            match parse_for_range_end(var, e1, true, *r5, fuel - 1) {
                                Parsed::Good { v, rest } => {
                                    proof {
                                        let brace = crate::render::one(
                                            Tok::Group(
                                                Delim::Brace,
                                                Box::new(render_stmts(*v->ForRange_body)),
                                            ),
                                        );
                                        lemma_tok_append_assoc(
                                            render_expr(v->ForRange_lo),
                                            TokList::Cons(
                                                Tok::Punct(Punct::DotDotEq),
                                                Box::new(
                                                    tok_append(render_expr(v->ForRange_hi), brace),
                                                ),
                                            ),
                                            rest,
                                        );
                                        lemma_tok_append_assoc(
                                            render_expr(v->ForRange_hi),
                                            brace,
                                            rest,
                                        );
                                    }
                                    Parsed::Good { v, rest }
                                },
                                other => other,
                            }
                        },
                        TokList::Cons(Tok::Group(Delim::Brace, inner), r5) => match e1 {
                            Expr::Read(p) => match parse_stmts(*inner, fuel - 1) {
                                Parsed::Good { v: body, rest: _ } => {
                                    proof {
                                        lemma_tok_append_assoc(
                                            render_place(p),
                                            crate::render::one(
                                                Tok::Group(
                                                    Delim::Brace,
                                                    Box::new(render_stmts(body)),
                                                ),
                                            ),
                                            *r5,
                                        );
                                    }
                                    Parsed::Good {
                                        v: Stmt::ForIter { var, iter: p, body: Box::new(body) },
                                        rest: *r5,
                                    }
                                },
                                other => other_stmt2(other),
                            },
                            _ => Parsed::Bad(Diag::error(DiagKind::UnexpectedToken)),
                        },
                        _ => Parsed::Bad(Diag::error(DiagKind::UnexpectedToken)),
                    },
                    other => other_stmt(other),
                },
                _ => Parsed::Bad(Diag::error(DiagKind::UnexpectedToken)),
            },
            _ => Parsed::Bad(Diag::error(DiagKind::UnexpectedToken)),
        }
}

/// Parses a conditional loop statement, given what follows the `while`
/// keyword.
fn parse_while_stmt(ts: TokList, fuel: u64) -> (r: Parsed<Stmt>)
    ensures
        r matches Parsed::Good { v, rest } ==> TokList::Cons(
            Tok::Ident(Name::KwWhile),
            Box::new(ts),
        ) == tok_append(render_stmt(v), rest),
        r matches Parsed::Bad(d) ==> d.level == DiagLevel::Error && d.kind
            == DiagKind::UnexpectedToken,
    decreases fuel,
{
    proof {
        reveal_with_fuel(tok_append, 6);
        reveal_with_fuel(render_stmt, 2);
        reveal_with_fuel(crate::render::render_mac_arg, 2);
    }
    if fuel == 0 {
        return Parsed::Spent;
    }
    match ts {
            TokList::Cons(Tok::Ident(Name::KwLet), r2) => match *r2 {
                TokList::Cons(Tok::Ident(Name::CtorSome), r3) => match *r3 {
                    TokList::Cons(Tok::Group(Delim::Paren, pinner), r4) => {
                        let var_ok = match &*pinner {
                            TokList::Cons(Tok::Ident(_), tail) => match &**tail {
                                TokList::Nil => true,
                                _ => false,
                            },
                            _ => false,
                        };
                        if !var_ok {
                            return Parsed::Bad(Diag::error(DiagKind::UnexpectedToken));
                        }
                        let var = match *pinner {
                            TokList::Cons(Tok::Ident(v), _) => v,
                            _ => Name::User(0),
                        };
                        match *r4 {
                            TokList::Cons(Tok::Punct(Punct::Eq), r5) => {
                                match parse_expr(*r5, fuel - 1) {
                                    Parsed::Good { v: source, rest: r6 } => match r6 {
                                        TokList::Cons(Tok::Group(Delim::Brace, inner), r7) => {
                                            match parse_stmts(*inner, fuel - 1) {
                                                Parsed::Good { v: body, rest: _ } => {
                                                    proof {
                                                        lemma_tok_append_assoc(
                                                            render_expr(source),
                                                            crate::render::one(
                                                                Tok::Group(
                                                                    Delim::Brace,
                                                                    Box::new(render_stmts(body)),
                                                                ),
                                                            ),
                                                            *r7,
                                                        );
                                                    }
                                                    Parsed::Good {
                                                        v: Stmt::WhileSome {
                                                            var,
                                                            source,
                                                            body: Box::new(body),
                                                        },
                                                        rest: *r7,
                                                    }
                                                },
                                                other => other_stmt2(other),
                                            }
                                        },
                                        _ => Parsed::Bad(Diag::error(DiagKind::UnexpectedToken)),
                                    },
                                    other => other_stmt(other),
                                }
                            },
                            _ => Parsed::Bad(Diag::error(DiagKind::UnexpectedToken)),
                        }
                    },
                    _ => Parsed::Bad(Diag::error(DiagKind::UnexpectedToken)),
                },
                _ => Parsed::Bad(Diag::error(DiagKind::UnexpectedToken)),
            },
            _ => Parsed::Bad(Diag::error(DiagKind::UnexpectedToken)),
        }
}

/// Parses an annotated macro invocation, an assignment, or an expression
/// statement.
fn parse_other_stmt(ts: TokList, fuel: u64) -> (r: Parsed<Stmt>)
    ensures
        r matches Parsed::Good { v, rest } ==> ts == tok_append(render_stmt(v), rest),
        r matches Parsed::Bad(d) ==> d.level == DiagLevel::Error && d.kind
            == DiagKind::UnexpectedToken,
    decreases fuel,
{
    proof {
        reveal_with_fuel(tok_append, 6);
        reveal_with_fuel(render_stmt, 2);
        reveal_with_fuel(crate::render::render_mac_arg, 2);
    }
    if fuel == 0 {
        return Parsed::Spent;
    }
    {
            // annotations, a macro invocation, or an expression statement
            match parse_attrs(ts, fuel - 1) {
                Parsed::Good { v: attrs, rest: r1 } => {
                    let has_attrs = match attrs {
                        AttrList::Nil => false,
                        _ => true,
                    };
                    match r1 {
                        TokList::Cons(Tok::Ident(n), r2) => match *r2 {
                            TokList::Cons(Tok::Punct(Punct::Eq), r2a) => {
                                if has_attrs {
                                    Parsed::Bad(Diag::error(DiagKind::UnexpectedToken))
                                } else {
                                    match parse_expr(*r2a, fuel - 1) {
                                        Parsed::Good { v: value, rest: rv } => match rv {
                                            TokList::Cons(Tok::Punct(Punct::Semi), rw) => {
                                                proof {
                                                    lemma_tok_append_assoc(
                                                        render_place(Place::Var(n)),
                                                        TokList::Cons(
                                                            Tok::Punct(Punct::Eq),
                                                            Box::new(
                                                                tok_append(
                                                                    render_expr(value),
                                                                    crate::render::one(
                                                                        Tok::Punct(Punct::Semi),
                                                                    ),
                                                                ),
                                                            ),
                                                        ),
                                                        *rw,
                                                    );
                                                    lemma_tok_append_assoc(
                                                        render_expr(value),
                                                        crate::render::one(
                                                            Tok::Punct(Punct::Semi),
                                                        ),
                                                        *rw,
                                                    );
                                                }
                                                Parsed::Good {
                                                    v: Stmt::Assign {
                                                        place: Place::Var(n),
                                                        value,
                                                    },
                                                    rest: *rw,
                                                }
                                            },
                                            _ => Parsed::Bad(
                                                Diag::error(DiagKind::UnexpectedToken),
                                            ),
                                        },
                                        other => other_stmt(other),
                                    }
                                }
                            },
                            TokList::Cons(Tok::Punct(Punct::Bang), r3) => match *r3 {
                                TokList::Cons(Tok::Group(Delim::Brace, inner), r4) => {
                                    match parse_stmts(
                                        crate::token::toklist_clone(&inner),
                                        fuel - 1,
                                    ) {
                                        Parsed::Good { v: body, rest: _ } => {
                                            proof {
                                                lemma_tok_append_assoc(
                                                    render_attrs(attrs),
                                                    TokList::Cons(
                                                        Tok::Ident(n),
                                                        Box::new(
                                                            crate::render::two(
                                                                Tok::Punct(Punct::Bang),
                                                                Tok::Group(
                                                                    Delim::Brace,
                                                                    Box::new(render_stmts(body)),
                                                                ),
                                                            ),
                                                        ),
                                                    ),
                                                    *r4,
                                                );
                                            }
                                            Parsed::Good {
                                                v: Stmt::MacStmt {
                                                    attrs,
                                                    name: n,
                                                    arg: MacArg::Parsed(Box::new(body)),
                                                },
                                                rest: *r4,
                                            }
                                        },
                                        Parsed::Bad(_) => {
                                            proof {
                                                lemma_tok_append_assoc(
                                                    render_attrs(attrs),
                                                    TokList::Cons(
                                                        Tok::Ident(n),
                                                        Box::new(
                                                            crate::render::two(
                                                                Tok::Punct(Punct::Bang),
                                                                Tok::Group(Delim::Brace, inner),
                                                            ),
                                                        ),
                                                    ),
                                                    *r4,
                                                );
                                            }
                                            Parsed::Good {
                                                v: Stmt::MacStmt {
                                                    attrs,
                                                    name: n,
                                                    arg: MacArg::Raw(*inner),
                                                },
                                                rest: *r4,
                                            }
                                        },
                                        Parsed::Spent => Parsed::Spent,
                                    }
                                },
                                other3 => {
                                    if has_attrs {
                                        Parsed::Bad(Diag::error(DiagKind::UnexpectedToken))
                                    } else {
                                        parse_expr_stmt(
                                            TokList::Cons(
                                                Tok::Ident(n),
                                                Box::new(
                                                    TokList::Cons(
                                                        Tok::Punct(Punct::Bang),
                                                        Box::new(other3),
                                                    ),
                                                ),
                                            ),
                                            fuel - 1,
                                        )
                                    }
                                },
                            },
                            other2 => {
                                if has_attrs {
                                    Parsed::Bad(Diag::error(DiagKind::UnexpectedToken))
                                } else {
                                    parse_expr_stmt(
                                        TokList::Cons(Tok::Ident(n), Box::new(other2)),
                                        fuel - 1,
                                    )
                                }
                            },
                        },
                        other1 => {
                            if has_attrs {
                                Parsed::Bad(Diag::error(DiagKind::UnexpectedToken))
                            } else {
                                parse_expr_stmt(other1, fuel - 1)
                            }
                        },
                    }
                },
                other => other_stmt3(other),
            }
        }
}

/// Parses one statement.
pub fn parse_stmt(ts: TokList, fuel: u64) -> (r: Parsed<Stmt>)
    ensures
        r matches Parsed::Good { v, rest } ==> ts == tok_append(render_stmt(v), rest),
        r matches Parsed::Bad(d) ==> d.level == DiagLevel::Error && d.kind
            == DiagKind::UnexpectedToken,
        ts matches TokList::Cons(Tok::Ident(Name::KwYield), r1) ==> (*r1 matches TokList::Cons(
            Tok::LitInt(n),
            r2,
        ) ==> (n <= 0x7fff_ffff_ffff_ffff ==> (*r2 matches TokList::Cons(Tok::Punct(Punct::Semi), tail)
            ==> (fuel >= 8 ==> r == (Parsed::Good {
            v: Stmt::ExprStmt(Expr::YieldExpr(Option::Some(Box::new(Expr::IntLit(n as i64))))),
            rest: *tail,
        }))))),
        ts matches TokList::Cons(Tok::Ident(Name::KwYield), r1) ==> (*r1 matches TokList::Cons(
            Tok::Punct(Punct::Semi),
            tail,
        ) ==> (fuel >= 8 ==> r == (Parsed::Good {
            v: Stmt::ExprStmt(Expr::YieldExpr(Option::None)),
            rest: *tail,
        }))),
    decreases fuel,
{
    if fuel == 0 {
        return Parsed::Spent;
    }
    match ts {
        TokList::Cons(Tok::Ident(Name::KwYield), r1) => parse_yield_stmt(*r1, fuel - 1),
        TokList::Cons(Tok::Ident(Name::KwIf), r1) => parse_if_stmt(*r1, fuel - 1),
        TokList::Cons(Tok::Ident(Name::KwLet), r1) => parse_let_stmt(*r1, fuel - 1),
        TokList::Cons(Tok::Ident(Name::KwFor), r1) => parse_for_stmt(*r1, fuel - 1),
        TokList::Cons(Tok::Ident(Name::KwWhile), r1) => parse_while_stmt(*r1, fuel - 1),
        other0 => parse_other_stmt(other0, fuel - 1),
    }
}

/// Parses a `let Some(x) = e else { return; };` statement, given what
/// follows the `let` keyword.
fn parse_let_some_else(ts: TokList, fuel: u64) -> (r: Parsed<Stmt>)
    ensures
        r matches Parsed::Good { v, rest } ==> TokList::Cons(
            Tok::Ident(Name::KwLet),
            Box::new(ts),
        ) == tok_append(render_stmt(v), rest),
        r matches Parsed::Bad(d) ==> d.level == DiagLevel::Error && d.kind
            == DiagKind::UnexpectedToken,
    decreases fuel,
{
    proof {
        reveal_with_fuel(tok_append, 6);
        reveal_with_fuel(render_stmt, 2);
    }
    if fuel == 0 {
        return Parsed::Spent;
    }
    match ts {
        TokList::Cons(Tok::Ident(Name::CtorSome), r1) => match *r1 {
            TokList::Cons(Tok::Group(Delim::Paren, pinner), r2) => {
                let pat: Option<(bool, Name)> = match *pinner {
                    TokList::Cons(Tok::Ident(Name::KwMut), t) => match *t {
                        TokList::Cons(Tok::Ident(v), t2) => match *t2 {
                            TokList::Nil => Option::Some((true, v)),
                            _ => Option::None,
                        },
                        _ => Option::None,
                    },
                    TokList::Cons(Tok::Ident(v), t) => match *t {
                        TokList::Nil => Option::Some((false, v)),
                        _ => Option::None,
                    },
                    _ => Option::None,
                };
                let (is_mut, var) = match pat {
                    Option::Some(pv) => pv,
                    Option::None => {
                        return Parsed::Bad(Diag::error(DiagKind::UnexpectedToken));
                    },
                };
                match *r2 {
                    TokList::Cons(Tok::Punct(Punct::Eq), r3) => match parse_expr(*r3, fuel - 1) {
                        Parsed::Good { v: source, rest: r4 } => match r4 {
                            TokList::Cons(Tok::Ident(Name::KwElse), r5) => match *r5 {
                                TokList::Cons(Tok::Group(Delim::Brace, binner), r6) => {
                                    let block_ok = match &*binner {
                                        TokList::Cons(Tok::Ident(Name::KwReturn), t) => match &**t {
                                            TokList::Cons(Tok::Punct(Punct::Semi), t2) => match &**t2 {
                                                TokList::Nil => true,
                                                _ => false,
                                            },
                                            _ => false,
                                        },
                                        _ => false,
                                    };
                                    if !block_ok {
                                        return Parsed::Bad(
                                            Diag::error(DiagKind::UnexpectedToken),
                                        );
                                    }
                                    match *r6 {
                                        TokList::Cons(Tok::Punct(Punct::Semi), r7) => {
                                            proof {
                                                lemma_tok_append_assoc(
                                                    render_expr(source),
                                                    TokList::Cons(
                                                        Tok::Ident(Name::KwElse),
                                                        Box::new(
                                                            crate::render::two(
                                                                Tok::Group(
                                                                    Delim::Brace,
                                                                    Box::new(
                                                                        crate::render::two(
                                                                            Tok::Ident(
                                                                                Name::KwReturn,
                                                                            ),
                                                                            Tok::Punct(
                                                                                Punct::Semi,
                                                                            ),
                                                                        ),
                                                                    ),
                                                                ),
                                                                Tok::Punct(Punct::Semi),
                                                            ),
                                                        ),
                                                    ),
                                                    *r7,
                                                );
                                            }
                                            Parsed::Good {
                                                v: Stmt::LetSomeElse {
                                                    is_mut,
                                                    name: var,
                                                    source,
                                                },
                                                rest: *r7,
                                            }
                                        },
                                        _ => Parsed::Bad(Diag::error(DiagKind::UnexpectedToken)),
                                    }
                                },
                                _ => Parsed::Bad(Diag::error(DiagKind::UnexpectedToken)),
                            },
                            _ => Parsed::Bad(Diag::error(DiagKind::UnexpectedToken)),
                        },
                        other => other_stmt(other),
                    },
                    _ => Parsed::Bad(Diag::error(DiagKind::UnexpectedToken)),
                }
            },
            _ => Parsed::Bad(Diag::error(DiagKind::UnexpectedToken)),
        },
        _ => Parsed::Bad(Diag::error(DiagKind::UnexpectedToken)),
    }
}

/// Parses the upper bound and body of a counted range loop.
fn parse_for_range_end(var: Name, lo: Expr, inclusive: bool, ts: TokList, fuel: u64) -> (r: Parsed<
    Stmt,
>)
    ensures
        r matches Parsed::Good { v, rest } ==> v == (Stmt::ForRange {
            var,
            lo,
            hi: v->ForRange_hi,
            inclusive,
            body: v->ForRange_body,
        }) && ts == tok_append(
            render_expr(v->ForRange_hi),
            TokList::Cons(
                Tok::Group(Delim::Brace, Box::new(render_stmts(*v->ForRange_body))),
                Box::new(rest),
            ),
        ),
        r matches Parsed::Bad(d) ==> d.level == DiagLevel::Error && d.kind
            == DiagKind::UnexpectedToken,
    decreases fuel,
{
    if fuel == 0 {
        return Parsed::Spent;
    }
    match parse_expr(ts, fuel - 1) {
        Parsed::Good { v: hi, rest: r1 } => match r1 {
            TokList::Cons(Tok::Group(Delim::Brace, inner), r2) => {
                match parse_stmts(*inner, fuel - 1) {
                    Parsed::Good { v: body, rest: _ } => Parsed::Good {
                        v: Stmt::ForRange { var, lo, hi, inclusive, body: Box::new(body) },
                        rest: *r2,
                    },
                    other => other_stmt2(other),
                }
            },
            _ => Parsed::Bad(Diag::error(DiagKind::UnexpectedToken)),
        },
        other => other_stmt(other),
    }
}

/// Parses an expression statement: an expression and its semicolon.
fn parse_expr_stmt(ts: TokList, fuel: u64) -> (r: Parsed<Stmt>)
    ensures
        r matches Parsed::Good { v, rest } ==> ts == tok_append(render_stmt(v), rest),
        r matches Parsed::Bad(d) ==> d.level == DiagLevel::Error && d.kind
            == DiagKind::UnexpectedToken,
    decreases fuel,
{
    proof {
        reveal_with_fuel(tok_append, 5);
    }
    if fuel == 0 {
        return Parsed::Spent;
    }
    match parse_expr(ts, fuel - 1) {
        Parsed::Good { v: e, rest: r1 } => match r1 {
            TokList::Cons(Tok::Punct(Punct::Semi), r2) => {
                proof {
                    lemma_tok_append_assoc(
                        render_expr(e),
                        crate::render::one(Tok::Punct(Punct::Semi)),
                        *r2,
                    );
                }
                Parsed::Good { v: Stmt::ExprStmt(e), rest: *r2 }
            },
            _ => Parsed::Bad(Diag::error(DiagKind::UnexpectedToken)),
        },
        other => other_stmt(other),
    }
}

/// Narrows a failed expression outcome to the statement result type.
fn other_stmt(p: Parsed<Expr>) -> (r: Parsed<Stmt>)
    requires
        p matches Parsed::Bad(d) ==> d.level == DiagLevel::Error && d.kind
            == DiagKind::UnexpectedToken,
    ensures
        !(r is Good),
        p is Spent <==> r is Spent,
        r matches Parsed::Bad(d) ==> d.level == DiagLevel::Error && d.kind
            == DiagKind::UnexpectedToken,
{
    match p {
        Parsed::Good { v, rest } => Parsed::Bad(Diag::error(DiagKind::UnexpectedToken)),
        Parsed::Bad(d) => Parsed::Bad(d),
        Parsed::Spent => Parsed::Spent,
    }
}

/// Narrows a failed body outcome to the statement result type.
fn other_stmt2(p: Parsed<StmtList>) -> (r: Parsed<Stmt>)
    requires
        p matches Parsed::Bad(d) ==> d.level == DiagLevel::Error && d.kind
            == DiagKind::UnexpectedToken,
    ensures
        !(r is Good),
        p is Spent <==> r is Spent,
        r matches Parsed::Bad(d) ==> d.level == DiagLevel::Error && d.kind
            == DiagKind::UnexpectedToken,
{
    match p {
        Parsed::Good { v, rest } => Parsed::Bad(Diag::error(DiagKind::UnexpectedToken)),
        Parsed::Bad(d) => Parsed::Bad(d),
        Parsed::Spent => Parsed::Spent,
    }
}

/// Narrows a failed annotation outcome to the statement result type.
fn other_stmt3(p: Parsed<AttrList>) -> (r: Parsed<Stmt>)
    requires
        p matches Parsed::Bad(d) ==> d.level == DiagLevel::Error && d.kind
            == DiagKind::UnexpectedToken,
    ensures
        !(r is Good),
        p is Spent <==> r is Spent,
        r matches Parsed::Bad(d) ==> d.level == DiagLevel::Error && d.kind
            == DiagKind::UnexpectedToken,
{
    match p {
        Parsed::Good { v, rest } => Parsed::Bad(Diag::error(DiagKind::UnexpectedToken)),
        Parsed::Bad(d) => Parsed::Bad(d),
        Parsed::Spent => Parsed::Spent,
    }
}

/// Parses a whole body: statements until the input is exhausted.
pub fn parse_stmts(ts: TokList, fuel: u64) -> (r: Parsed<StmtList>)
    ensures
        r matches Parsed::Good { v, rest } ==> ts == render_stmts(v) && rest == TokList::Nil,
        r matches Parsed::Bad(d) ==> d.level == DiagLevel::Error && d.kind
            == DiagKind::UnexpectedToken,
        ts is Nil && fuel >= 1 ==> r == (Parsed::Good { v: StmtList::Nil, rest: TokList::Nil }),
    decreases fuel,
{
    if fuel == 0 {
        return Parsed::Spent;
    }
    match ts {
        TokList::Nil => Parsed::Good { v: StmtList::Nil, rest: TokList::Nil },
        other0 => match parse_stmt(other0, fuel - 1) {
            Parsed::Good { v: s, rest: r1 } => match parse_stmts(r1, fuel - 1) {
                Parsed::Good { v: b, rest: _ } => Parsed::Good {
                    v: StmtList::Cons(s, Box::new(b)),
                    rest: TokList::Nil,
                },
                other => other,
            },
            Parsed::Bad(d) => Parsed::Bad(d),
            Parsed::Spent => Parsed::Spent,
        },
    }
}

} // verus!
