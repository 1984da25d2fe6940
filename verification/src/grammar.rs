//! The alternative item grammars and their dispatch.
//!
//! One marker token picks the grammar: `*` for the prefixed-name form
//! (`fn* name(..) yields Ty { .. }`), `!` for the keyword-prefixed form
//! (`gen fn name(..) -> Ty { .. }`, the keyword marked by the invocation
//! pass), and `#` for an ordinary function whose body holds nested
//! generator blocks. All three produce the same canonical parsed form.
//! An input headed by no marker fails with exactly the expected-marker
//! error, and on minimal rendered declarations a successful parse — and a
//! successful end-to-end expansion — is guaranteed.

use vstd::prelude::*;

use crate::ast::{Arg, ArgKind, ArgList, AttrList, Decl, GParam, GParams, OrdFn, Vis};
use crate::diag::{Diag, DiagKind, DiagLevel};
use crate::expr::StmtList;
use crate::parse::{Parsed, parse_attrs, parse_stmts};
use crate::render::{
    render_arg, render_args, render_attrs, render_fn_star, render_gen_2996, render_generics,
    render_gparam, render_gparams, render_ord_fn, render_stmts, render_vis, one,
};
use crate::token::{
    Delim, LtName, Name, Punct, Tok, TokList, lemma_tok_append_assoc, tok_append,
};

verus! {

broadcast use crate::token::lemma_tok_append_nil;

/// Consumes the prefixed-name dispatch marker `*` when present.
pub fn check_fn_star(ts: TokList) -> (r: (bool, TokList))
    ensures
        r.0 ==> ts == TokList::Cons(Tok::Punct(Punct::Star), Box::new(r.1)),
        !r.0 ==> r.1 == ts && !(ts matches TokList::Cons(Tok::Punct(Punct::Star), _)),
{
    match ts {
        TokList::Cons(Tok::Punct(Punct::Star), rest) => (true, *rest),
        other => (false, other),
    }
}

/// Consumes the keyword-form dispatch marker `!` when present.
pub fn check_gen_2996(ts: TokList) -> (r: (bool, TokList))
    ensures
        r.0 ==> ts == TokList::Cons(Tok::Punct(Punct::Bang), Box::new(r.1)),
        !r.0 ==> r.1 == ts && !(ts matches TokList::Cons(Tok::Punct(Punct::Bang), _)),
{
    match ts {
        TokList::Cons(Tok::Punct(Punct::Bang), rest) => (true, *rest),
        other => (false, other),
    }
}

/// Consumes the ordinary-function dispatch marker `#` when present.
pub fn check_gen_blocks(ts: TokList) -> (r: (bool, TokList))
    ensures
        r.0 ==> ts == TokList::Cons(Tok::Punct(Punct::Pound), Box::new(r.1)),
        !r.0 ==> r.1 == ts && !(ts matches TokList::Cons(Tok::Punct(Punct::Pound), _)),
{
    match ts {
        TokList::Cons(Tok::Punct(Punct::Pound), rest) => (true, *rest),
        other => (false, other),
    }
}

/// The shared head of every item grammar: annotations, a visibility
/// marker, and an optional `async`.
fn parse_head(ts: TokList, fuel: u64) -> (r: Parsed<(AttrList, Vis, bool)>)
    ensures
        r matches Parsed::Good { v, rest } ==> ts == tok_append(
            render_attrs(v.0),
            tok_append(
                render_vis(v.1),
                tok_append(
                    if v.2 {
                        one(Tok::Ident(Name::KwAsync))
                    } else {
                        TokList::Nil
                    },
                    rest,
                ),
            ),
        ),
        r matches Parsed::Bad(d) ==> d.level == DiagLevel::Error && d.kind
            == DiagKind::UnexpectedToken,
        ts matches TokList::Cons(Tok::Ident(h), r0) ==> (h != Name::KwPub ==> (h != Name::KwAsync
            ==> (fuel >= 2 ==> r == (Parsed::Good {
            v: (AttrList::Nil, Vis::Private, false),
            rest: ts,
        })))),
    decreases fuel,
{
    proof {
        reveal_with_fuel(tok_append, 4);
    }
    if fuel == 0 {
        return Parsed::Spent;
    }
    match parse_attrs(ts, fuel - 1) {
        Parsed::Good { v: attrs, rest: r1 } => {
            let (vis, r2) = match r1 {
                TokList::Cons(Tok::Ident(Name::KwPub), r2) => (Vis::Public, *r2),
                other1 => (Vis::Private, other1),
            };
            let (is_async, r3) = match r2 {
                TokList::Cons(Tok::Ident(Name::KwAsync), r3) => (true, *r3),
                other2 => (false, other2),
            };
            Parsed::Good { v: (attrs, vis, is_async), rest: r3 }
        },
        Parsed::Bad(d) => Parsed::Bad(d),
        Parsed::Spent => Parsed::Spent,
    }
}

/// Parses the generic parameters between `<` and `>`, the closing angle
/// included in what is consumed.
fn parse_gparams(ts: TokList, fuel: u64) -> (r: Parsed<GParams>)
    ensures
        r matches Parsed::Good { v, rest } ==> (v matches GParams::Cons(_, _)) && ts == tok_append(
            render_gparams(v),
            TokList::Cons(Tok::Punct(Punct::Gt), Box::new(rest)),
        ),
        r matches Parsed::Bad(d) ==> d.level == DiagLevel::Error && d.kind
            == DiagKind::UnexpectedToken,
    decreases fuel,
{
    proof {
        reveal_with_fuel(tok_append, 5);
    }
    if fuel == 0 {
        return Parsed::Spent;
    }
    let (p, r1) = match ts {
        TokList::Cons(Tok::Lifetime(l), r1) => (GParam::Lt(l), *r1),
        TokList::Cons(Tok::Ident(n), r1) => match *r1 {
            TokList::Cons(Tok::Punct(Punct::Colon), r2) => {
                let (bound, after) = slurp_bound(*r2, 0);
                let empty = match bound {
                    TokList::Nil => true,
                    _ => false,
                };
                if empty {
                    return Parsed::Bad(Diag::error(DiagKind::UnexpectedToken));
                }
                (GParam::TyParam { name: n, bound }, after)
            },
            other1 => (GParam::TyParam { name: n, bound: TokList::Nil }, other1),
        },
        _ => {
            return Parsed::Bad(Diag::error(DiagKind::UnexpectedToken));
        },
    };
    match r1 {
        TokList::Cons(Tok::Punct(Punct::Gt), r2) => Parsed::Good {
            v: GParams::Cons(p, Box::new(GParams::Nil)),
            rest: *r2,
        },
        TokList::Cons(Tok::Punct(Punct::Comma), r2) => match parse_gparams(*r2, fuel - 1) {
            Parsed::Good { v: g2, rest } => {
                proof {
                    lemma_tok_append_assoc(
                        render_gparam(p),
                        TokList::Cons(Tok::Punct(Punct::Comma), Box::new(render_gparams(g2))),
                        TokList::Cons(Tok::Punct(Punct::Gt), Box::new(rest)),
                    );
                }
                Parsed::Good { v: GParams::Cons(p, Box::new(g2)), rest }
            },
            other => other,
        },
        _ => Parsed::Bad(Diag::error(DiagKind::UnexpectedToken)),
    }
}

/// Splits a bound before the comma or closing angle that ends it.
fn slurp_bound(ts: TokList, depth: i64) -> (r: (TokList, TokList))
    requires
        0 <= depth <= 1000000,
    ensures
        ts == tok_append(r.0, r.1),
        r.1 matches TokList::Cons(t, _) ==> (t == Tok::Punct(Punct::Comma) || t == Tok::Punct(
            Punct::Gt,
        )),
    decreases ts,
{
    match ts {
        TokList::Nil => (TokList::Nil, TokList::Nil),
        TokList::Cons(t, rest) => match t {
            Tok::Punct(Punct::Comma) => {
                if depth == 0 {
                    (TokList::Nil, TokList::Cons(Tok::Punct(Punct::Comma), rest))
                } else {
                    let (a, b) = slurp_bound(*rest, depth);
                    (TokList::Cons(Tok::Punct(Punct::Comma), Box::new(a)), b)
                }
            },
            Tok::Punct(Punct::Lt) => {
                let d2 = if depth < 1000000 {
                    depth + 1
                } else {
                    depth
                };
                let (a, b) = slurp_bound(*rest, d2);
                (TokList::Cons(Tok::Punct(Punct::Lt), Box::new(a)), b)
            },
            Tok::Punct(Punct::Gt) => {
                if depth == 0 {
                    (TokList::Nil, TokList::Cons(Tok::Punct(Punct::Gt), rest))
                } else {
                    let (a, b) = slurp_bound(*rest, depth - 1);
                    (TokList::Cons(Tok::Punct(Punct::Gt), Box::new(a)), b)
                }
            },
            _ => {
                let (a, b) = slurp_bound(*rest, depth);
                (TokList::Cons(t, Box::new(a)), b)
            },
        },
    }
}

/// Splits a parameter type before the top-level comma that ends it.
fn slurp_arg_ty(ts: TokList, depth: i64) -> (r: (TokList, TokList))
    requires
        0 <= depth <= 1000000,
    ensures
        ts == tok_append(r.0, r.1),
        r.1 matches TokList::Cons(t, _) ==> t == Tok::Punct(Punct::Comma),
    decreases ts,
{
    match ts {
        TokList::Nil => (TokList::Nil, TokList::Nil),
        TokList::Cons(t, rest) => match t {
            Tok::Punct(Punct::Comma) => {
                if depth == 0 {
                    (TokList::Nil, TokList::Cons(Tok::Punct(Punct::Comma), rest))
                } else {
                    let (a, b) = slurp_arg_ty(*rest, depth);
                    (TokList::Cons(Tok::Punct(Punct::Comma), Box::new(a)), b)
                }
            },
            Tok::Punct(Punct::Lt) => {
                let d2 = if depth < 1000000 {
                    depth + 1
                } else {
                    depth
                };
                let (a, b) = slurp_arg_ty(*rest, d2);
                (TokList::Cons(Tok::Punct(Punct::Lt), Box::new(a)), b)
            },
            Tok::Punct(Punct::Gt) => {
                let d2 = if depth > 0 {
                    depth - 1
                } else {
                    0
                };
                let (a, b) = slurp_arg_ty(*rest, d2);
                (TokList::Cons(Tok::Punct(Punct::Gt), Box::new(a)), b)
            },
            _ => {
                let (a, b) = slurp_arg_ty(*rest, depth);
                (TokList::Cons(t, Box::new(a)), b)
            },
        },
    }
}

/// Whether the sequence holds a variadic-dots token at its top level.
pub open spec fn has_ellipsis(ts: TokList) -> bool
    decreases ts,
{
    match ts {
        TokList::Nil => false,
        TokList::Cons(t, rest) => t == Tok::Punct(Punct::Ellipsis) || has_ellipsis(*rest),
    }
}

proof fn lemma_has_ellipsis_append(a: TokList, b: TokList)
    ensures
        has_ellipsis(tok_append(a, b)) == (has_ellipsis(a) || has_ellipsis(b)),
    decreases a,
{
    match a {
        TokList::Nil => {},
        TokList::Cons(t, rest) => {
            lemma_has_ellipsis_append(*rest, b);
        },
    }
}

/// No parameter is a receiver.
pub open spec fn no_receiver(args: ArgList) -> bool
    decreases args,
{
    match args {
        ArgList::Nil => true,
        ArgList::Cons(a, rest) => !(a.kind is Receiver) && no_receiver(*rest),
    }
}

/// The declaration shape invariant on a parsed parameter list: at most one
/// receiver, and only as the first element.
pub open spec fn args_wf(args: ArgList) -> bool {
    match args {
        ArgList::Nil => true,
        ArgList::Cons(a, rest) => no_receiver(*rest),
    }
}

/// One parameter's tokens hold no variadic dots (a receiver never does; a
/// typed parameter's type must not).
pub open spec fn arg_no_ellipsis(a: Arg) -> bool {
    match a.kind {
        ArgKind::Receiver { by_ref, lt, is_mut } => true,
        ArgKind::Typed { is_mut, name, ty } => !has_ellipsis(ty),
    }
}

/// No parameter's tokens hold variadic dots.
pub open spec fn args_no_ellipsis(args: ArgList) -> bool
    decreases args,
{
    match args {
        ArgList::Nil => true,
        ArgList::Cons(a, rest) => arg_no_ellipsis(a) && args_no_ellipsis(*rest),
    }
}

proof fn lemma_render_attrs_no_ellipsis(al: AttrList)
    ensures
        !has_ellipsis(render_attrs(al)),
    decreases al,
{
    reveal_with_fuel(has_ellipsis, 4);
    match al {
        AttrList::Nil => {},
        AttrList::Cons(a, rest) => {
            lemma_has_ellipsis_append(crate::render::render_attr(a), render_attrs(*rest));
            lemma_render_attrs_no_ellipsis(*rest);
        },
    }
}

proof fn lemma_render_arg_no_ellipsis(a: Arg)
    requires
        arg_no_ellipsis(a),
    ensures
        !has_ellipsis(render_arg(a)),
{
    reveal_with_fuel(has_ellipsis, 6);
    lemma_render_attrs_no_ellipsis(a.attrs);
    lemma_has_ellipsis_append(render_attrs(a.attrs), crate::render::render_arg_kind(a.kind));
}

proof fn lemma_render_args_no_ellipsis(args: ArgList)
    requires
        args_no_ellipsis(args),
    ensures
        !has_ellipsis(render_args(args)),
    decreases args,
{
    reveal_with_fuel(has_ellipsis, 3);
    match args {
        ArgList::Nil => {},
        ArgList::Cons(a, rest) => {
            lemma_render_arg_no_ellipsis(a);
            match *rest {
                ArgList::Nil => {},
                _ => {
                    lemma_render_args_no_ellipsis(*rest);
                    lemma_has_ellipsis_append(
                        render_arg(a),
                        TokList::Cons(Tok::Punct(Punct::Comma), Box::new(render_args(*rest))),
                    );
                },
            }
        },
    }
}

/// Whether the sequence holds a variadic-dots token at its top level
/// (executable form).
fn contains_ellipsis(ts: &TokList) -> (r: bool)
    ensures
        r == has_ellipsis(*ts),
    decreases *ts,
{
    match ts {
        TokList::Nil => false,
        TokList::Cons(t, rest) => {
            let is_dots = match t {
                Tok::Punct(Punct::Ellipsis) => true,
                _ => false,
            };
            is_dots || contains_ellipsis(rest)
        },
    }
}

/// Parses a whole argument list: an optional leading receiver, then typed
/// parameters; a variadic parameter is noted and dropped, and a receiver
/// out of place is a hard error. A parse keeps the declaration's shape
/// invariant — at most one receiver, only first — and notes a variadic
/// exactly when the input holds one.
pub fn parse_fn_args(ts: TokList, fuel: u64) -> (r: Parsed<(ArgList, bool)>)
    ensures
        r matches Parsed::Good { v, rest } ==> rest == TokList::Nil && (!v.1 ==> ts == render_args(
            v.0,
        )) && args_wf(v.0) && args_no_ellipsis(v.0) && (v.1 <==> has_ellipsis(ts)),
        r matches Parsed::Bad(d) ==> d.level == DiagLevel::Error && (d.kind
            == DiagKind::UnexpectedToken || d.kind == DiagKind::SecondReceiver || d.kind
            == DiagKind::ReceiverAfterArg),
        ts is Nil && fuel >= 1 ==> r == (Parsed::Good {
            v: (ArgList::Nil, false),
            rest: TokList::Nil,
        }),
    decreases fuel,
{
    match parse_args_go(ts, false, false, fuel) {
        Parsed::Good { v, rest } => {
            proof {
                if !v.1 {
                    lemma_render_args_no_ellipsis(v.0);
                }
            }
            Parsed::Good { v, rest }
        },
        other => other,
    }
}

/// The argument-list loop. `has_receiver` and `seen_any` record what came
/// before, so a second receiver or one after an ordinary parameter is
/// rejected outright.
fn parse_args_go(ts: TokList, has_receiver: bool, seen_any: bool, fuel: u64) -> (r: Parsed<
    (ArgList, bool),
>)
    ensures
        r matches Parsed::Good { v, rest } ==> rest == TokList::Nil && (!v.1 ==> ts == render_args(
            v.0,
        )) && (if has_receiver || seen_any {
            no_receiver(v.0)
        } else {
            args_wf(v.0)
        }) && args_no_ellipsis(v.0) && (v.1 ==> has_ellipsis(ts)),
        r matches Parsed::Bad(d) ==> d.level == DiagLevel::Error && (d.kind
            == DiagKind::UnexpectedToken || d.kind == DiagKind::SecondReceiver || d.kind
            == DiagKind::ReceiverAfterArg),
        ts is Nil && fuel >= 1 ==> r == (Parsed::Good {
            v: (ArgList::Nil, false),
            rest: TokList::Nil,
        }),
    decreases fuel,
{
    proof {
        reveal_with_fuel(tok_append, 5);
        reveal_with_fuel(has_ellipsis, 8);
        reveal_with_fuel(args_no_ellipsis, 3);
        reveal_with_fuel(no_receiver, 3);
    }
    if fuel == 0 {
        return Parsed::Spent;
    }
    match ts {
        TokList::Nil => Parsed::Good { v: (ArgList::Nil, false), rest: TokList::Nil },
        other0 => match parse_attrs(other0, fuel - 1) {
            Parsed::Good { v: attrs, rest: r1 } => {
                let ghost g_r1 = r1;
                match r1 {
                    TokList::Cons(Tok::Punct(Punct::Ellipsis), r2) => {
                        // a variadic parameter: diagnosed by the caller, dropped here
                        let r3 = match *r2 {
                            TokList::Cons(Tok::Punct(Punct::Comma), r3) => *r3,
                            other2 => other2,
                        };
                        match parse_args_go(r3, has_receiver, seen_any, fuel - 1) {
                            Parsed::Good { v, rest } => {
                                proof {
                                    lemma_has_ellipsis_append(render_attrs(attrs), g_r1);
                                }
                                Parsed::Good { v: (v.0, true), rest }
                            },
                            other => other,
                        }
                    },
                    TokList::Cons(Tok::Punct(Punct::Amp), r2) => {
                        if has_receiver {
                            return Parsed::Bad(Diag::error(DiagKind::SecondReceiver));
                        }
                        if seen_any {
                            return Parsed::Bad(Diag::error(DiagKind::ReceiverAfterArg));
                        }
                        let (lt, r3) = match *r2 {
                            TokList::Cons(Tok::Lifetime(l), r3) => (Option::Some(l), *r3),
                            other2 => (Option::<LtName>::None, other2),
                        };
                        let (is_mut, r4) = match r3 {
                            TokList::Cons(Tok::Ident(Name::KwMut), r4) => (true, *r4),
                            other3 => (false, other3),
                        };
                        match r4 {
                            TokList::Cons(Tok::Ident(Name::KwSelfValue), r5) => {
                                let kind = ArgKind::Receiver { by_ref: true, lt, is_mut };
                                proof {
                                    lemma_tok_append_assoc(
                                        render_attrs(attrs),
                                        crate::render::render_arg_kind(kind),
                                        *r5,
                                    );
                                    lemma_has_ellipsis_append(render_attrs(attrs), g_r1);
                                }
                                finish_arg(Arg { attrs, kind }, *r5, has_receiver, fuel - 1, true)
                            },
                            _ => Parsed::Bad(Diag::error(DiagKind::UnexpectedToken)),
                        }
                    },
                    TokList::Cons(Tok::Ident(Name::KwSelfValue), r2) => {
                        if has_receiver {
                            return Parsed::Bad(Diag::error(DiagKind::SecondReceiver));
                        }
                        if seen_any {
                            return Parsed::Bad(Diag::error(DiagKind::ReceiverAfterArg));
                        }
                        let kind = ArgKind::Receiver {
                            by_ref: false,
                            lt: Option::None,
                            is_mut: false,
                        };
                        proof {
                            lemma_tok_append_assoc(
                                render_attrs(attrs),
                                crate::render::render_arg_kind(kind),
                                *r2,
                            );
                            lemma_has_ellipsis_append(render_attrs(attrs), g_r1);
                        }
                        finish_arg(Arg { attrs, kind }, *r2, has_receiver, fuel - 1, true)
                    },
                    other1 => {
                        let (is_mut, r2) = match other1 {
                            TokList::Cons(Tok::Ident(Name::KwMut), r2) => (true, *r2),
                            o => (false, o),
                        };
                        match r2 {
                            TokList::Cons(Tok::Ident(name), r3) => match *r3 {
                                TokList::Cons(Tok::Punct(Punct::Colon), r4) => {
                                    let (ty, after) = slurp_arg_ty(*r4, 0);
                                    let empty = match ty {
                                        TokList::Nil => true,
                                        _ => false,
                                    };
                                    if empty {
                                        return Parsed::Bad(
                                            Diag::error(DiagKind::UnexpectedToken),
                                        );
                                    }
                                    if contains_ellipsis(&ty) {
                                        return Parsed::Bad(
                                            Diag::error(DiagKind::UnexpectedToken),
                                        );
                                    }
                                    let ghost g_ty = ty;
                                    let ghost g_after = after;
                                    let kind = ArgKind::Typed { is_mut, name, ty };
                                    proof {
                                        lemma_tok_append_assoc(
                                            render_attrs(attrs),
                                            crate::render::render_arg_kind(kind),
                                            after,
                                        );
                                        lemma_has_ellipsis_append(render_attrs(attrs), g_r1);
                                        lemma_has_ellipsis_append(g_ty, g_after);
                                    }
                                    finish_arg(
                                        Arg { attrs, kind },
                                        after,
                                        has_receiver,
                                        fuel - 1,
                                        false,
                                    )
                                },
                                _ => Parsed::Bad(Diag::error(DiagKind::UnexpectedToken)),
                            },
                            _ => Parsed::Bad(Diag::error(DiagKind::UnexpectedToken)),
                        }
                    },
                }
            },
            Parsed::Bad(d) => Parsed::Bad(d),
            Parsed::Spent => Parsed::Spent,
        },
    }
}

/// Finishes one parsed argument: either the list ends here, or a comma
/// separates it from at least one more.
fn finish_arg(a: Arg, after: TokList, had_receiver: bool, fuel: u64, is_receiver: bool) -> (r:
    Parsed<(ArgList, bool)>)
    requires
        arg_no_ellipsis(a),
    ensures
        r matches Parsed::Good { v, rest } ==> rest == TokList::Nil && (!v.1 ==> tok_append(
            render_arg(a),
            after,
        ) == render_args(v.0)) && (v.0 matches ArgList::Cons(first, tail) && first == a
            && no_receiver(*tail)) && args_no_ellipsis(v.0) && (v.1 ==> has_ellipsis(after)),
        r matches Parsed::Bad(d) ==> d.level == DiagLevel::Error && (d.kind
            == DiagKind::UnexpectedToken || d.kind == DiagKind::SecondReceiver || d.kind
            == DiagKind::ReceiverAfterArg),
    decreases fuel,
{
    proof {
        reveal_with_fuel(tok_append, 5);
        reveal_with_fuel(has_ellipsis, 3);
        reveal_with_fuel(args_no_ellipsis, 3);
        reveal_with_fuel(no_receiver, 3);
    }
    if fuel == 0 {
        return Parsed::Spent;
    }
    match after {
        TokList::Nil => Parsed::Good {
            v: (ArgList::Cons(a, Box::new(ArgList::Nil)), false),
            rest: TokList::Nil,
        },
        TokList::Cons(Tok::Punct(Punct::Comma), r1) => {
            let more = match *r1 {
                TokList::Nil => false,
                _ => true,
            };
            if !more {
                return Parsed::Bad(Diag::error(DiagKind::UnexpectedToken));
            }
            let ghost g_r1 = r1;
            match parse_args_go(*r1, had_receiver || is_receiver, true, fuel - 1) {
                Parsed::Good { v, rest } => {
                    let tail_empty = match v.0 {
                        ArgList::Nil => true,
                        _ => false,
                    };
                    if tail_empty {
                        // only a dropped variadic followed; the comma before
                        // it is then spurious in the rendering
                        if v.1 {
                            Parsed::Good {
                                v: (ArgList::Cons(a, Box::new(ArgList::Nil)), true),
                                rest,
                            }
                        } else {
                            Parsed::Bad(Diag::error(DiagKind::UnexpectedToken))
                        }
                    } else {
                        proof {
                            if !v.1 {
                                lemma_tok_append_assoc(
                                    render_arg(a),
                                    TokList::Cons(
                                        Tok::Punct(Punct::Comma),
                                        Box::new(render_args(v.0)),
                                    ),
                                    TokList::Nil,
                                );
                            }
                        }
                        Parsed::Good { v: (ArgList::Cons(a, Box::new(v.0)), v.1), rest }
                    }
                },
                other => other,
            }
        },
        _ => Parsed::Bad(Diag::error(DiagKind::UnexpectedToken)),
    }
}

/// The token that introduces a declared type in a signature tail: the
/// contextual keyword `yields` in the prefixed-name grammar (unless the
/// warned-about `->` spelling was used), the arrow everywhere else.
pub open spec fn intro_tok(star_form: bool, arrow: bool) -> Tok {
    if star_form && !arrow {
        Tok::Ident(Name::KwYields)
    } else {
        Tok::Punct(Punct::RArrow)
    }
}

/// Parses the shared signature tail of the item grammars: generics,
/// arguments, the optional declared type, and the body.
fn parse_sig_tail(
    attrs: AttrList,
    vis: Vis,
    is_async: bool,
    name: Name,
    ts: TokList,
    star_form: bool,
    fuel: u64,
) -> (r: Parsed<(Decl, bool, bool)>)
    ensures
        r matches Parsed::Good { v, rest } ==> v.0.attrs == attrs && v.0.vis == vis
            && v.0.is_async == is_async && v.0.name == name && (star_form || !v.1) && (!v.2
            ==> ts == tok_append(
            crate::render::render_sig(
                v.0.generics,
                v.0.args,
                v.0.yields,
                intro_tok(star_form, v.1),
                v.0.body,
            ),
            rest,
        )),
        r matches Parsed::Bad(d) ==> d.level == DiagLevel::Error && (d.kind
            == DiagKind::UnexpectedToken || d.kind == DiagKind::SecondReceiver || d.kind
            == DiagKind::ReceiverAfterArg),
        ts matches TokList::Cons(Tok::Group(Delim::Paren, argsinner), r8) ==> (*argsinner
            == TokList::Nil ==> (*r8 matches TokList::Cons(Tok::Group(Delim::Brace, binner), r10)
            ==> (*binner == TokList::Nil ==> (fuel >= 6 ==> r == (Parsed::Good {
            v: (
                Decl {
                    attrs,
                    vis,
                    is_async,
                    name,
                    generics: GParams::Nil,
                    args: ArgList::Nil,
                    yields: Option::None,
                    body: StmtList::Nil,
                },
                false,
                false,
            ),
            rest: *r10,
        }))))),
    decreases fuel,
{
    proof {
        reveal_with_fuel(tok_append, 6);
    }
    if fuel == 0 {
        return Parsed::Spent;
    }
    let (generics, r7) = match ts {
        TokList::Cons(Tok::Punct(Punct::Lt), r6a) => match parse_gparams(*r6a, fuel - 1) {
            Parsed::Good { v: g, rest } => (g, rest),
            Parsed::Bad(d) => {
                return Parsed::Bad(d);
            },
            Parsed::Spent => {
                return Parsed::Spent;
            },
        },
        other => (GParams::Nil, other),
    };
    let ghost g_r7 = r7;
    match r7 {
        TokList::Cons(Tok::Group(Delim::Paren, argsinner), r8) => {
            match parse_fn_args(*argsinner, fuel - 1) {
                Parsed::Good { v: (args, variadic), rest: _ } => {
                    let (yields, arrow, r9): (Option<TokList>, bool, TokList) = match *r8 {
                        TokList::Cons(Tok::Ident(Name::KwYields), r9) => {
                            if !star_form {
                                return Parsed::Bad(Diag::error(DiagKind::UnexpectedToken));
                            }
                            match crate::parse::slurp_until_brace(*r9) {
                                Option::Some((ty, after)) => (Option::Some(ty), false, after),
                                Option::None => {
                                    return Parsed::Bad(Diag::error(DiagKind::UnexpectedToken));
                                },
                            }
                        },
                        TokList::Cons(Tok::Punct(Punct::RArrow), r9) => {
                            match crate::parse::slurp_until_brace(*r9) {
                                Option::Some((ty, after)) => (Option::Some(ty), true, after),
                                Option::None => {
                                    return Parsed::Bad(Diag::error(DiagKind::UnexpectedToken));
                                },
                            }
                        },
                        other8 => (Option::None, false, other8),
                    };
                    match r9 {
                        TokList::Cons(Tok::Group(Delim::Brace, binner), r10) => {
                            match parse_stmts(*binner, fuel - 1) {
                                Parsed::Good { v: body, rest: _ } => {
                                    let arrow_flag = star_form && arrow;
                                    let d = Decl {
                                        attrs,
                                        vis,
                                        is_async,
                                        name,
                                        generics,
                                        args,
                                        yields,
                                        body,
                                    };
                                    proof {
                                        let yp = if d.yields is Some {
                                            TokList::Cons(
                                                intro_tok(star_form, arrow_flag),
                                                Box::new(d.yields->0),
                                            )
                                        } else {
                                            TokList::Nil
                                        };
                                        let brace = one(
                                            Tok::Group(
                                                Delim::Brace,
                                                Box::new(render_stmts(d.body)),
                                            ),
                                        );
                                        let t1 = TokList::Cons(
                                            Tok::Group(
                                                Delim::Paren,
                                                Box::new(render_args(d.args)),
                                            ),
                                            Box::new(tok_append(yp, brace)),
                                        );
                                        lemma_tok_append_assoc(
                                            render_generics(d.generics),
                                            t1,
                                            *r10,
                                        );
                                        lemma_tok_append_assoc(yp, brace, *r10);
                                        if d.generics is Cons {
                                            lemma_tok_append_assoc(
                                                render_gparams(d.generics),
                                                one(Tok::Punct(Punct::Gt)),
                                                tok_append(t1, *r10),
                                            );
                                        }
                                    }
                                    Parsed::Good { v: (d, arrow_flag, variadic), rest: *r10 }
                                },
                                Parsed::Bad(db) => Parsed::Bad(db),
                                Parsed::Spent => Parsed::Spent,
                            }
                        },
                        _ => Parsed::Bad(Diag::error(DiagKind::UnexpectedToken)),
                    }
                },
                Parsed::Bad(d) => Parsed::Bad(d),
                Parsed::Spent => Parsed::Spent,
            }
        },
        _ => Parsed::Bad(Diag::error(DiagKind::UnexpectedToken)),
    }
}

/// Parses the prefixed-name grammar, after its dispatch marker:
/// `[attrs] [pub] [async] fn * name [generics] (args) [yields Ty] { body }`.
/// The first returned flag records that `->` introduced the yield type
/// (warned about, still parsed); the second that a variadic parameter was
/// dropped.
pub fn parse_fn_star(ts: TokList, fuel: u64) -> (r: Parsed<(Decl, bool, bool)>)
    ensures
        r matches Parsed::Good { v, rest } ==> !v.2 ==> ts == tok_append(
            render_fn_star(v.0, v.1),
            rest,
        ),
        r matches Parsed::Bad(d) ==> d.level == DiagLevel::Error && (d.kind
            == DiagKind::UnexpectedToken || d.kind == DiagKind::SecondReceiver || d.kind
            == DiagKind::ReceiverAfterArg),
        ts matches TokList::Cons(Tok::Ident(Name::KwFn), r4) ==> (*r4 matches TokList::Cons(
            Tok::Punct(Punct::Star),
            r5,
        ) ==> (*r5 matches TokList::Cons(Tok::Ident(nm), r6) ==> (*r6 matches TokList::Cons(
            Tok::Group(Delim::Paren, argsinner),
            r8,
        ) ==> (*argsinner == TokList::Nil ==> (*r8 matches TokList::Cons(
            Tok::Group(Delim::Brace, binner),
            r10,
        ) ==> (*binner == TokList::Nil ==> (fuel >= 8 ==> r == (Parsed::Good {
            v: (
                Decl {
                    attrs: AttrList::Nil,
                    vis: Vis::Private,
                    is_async: false,
                    name: nm,
                    generics: GParams::Nil,
                    args: ArgList::Nil,
                    yields: Option::None,
                    body: StmtList::Nil,
                },
                false,
                false,
            ),
            rest: *r10,
        })))))))),
    decreases fuel,
{
    proof {
        reveal_with_fuel(tok_append, 6);
    }
    if fuel == 0 {
        return Parsed::Spent;
    }
    match parse_head(ts, fuel - 1) {
        Parsed::Good { v: (attrs, vis, is_async), rest: r3 } => match r3 {
            TokList::Cons(Tok::Ident(Name::KwFn), r4) => match *r4 {
                TokList::Cons(Tok::Punct(Punct::Star), r5) => match *r5 {
                    TokList::Cons(Tok::Ident(name), r6) => {
                        match parse_sig_tail(attrs, vis, is_async, name, *r6, true, fuel - 1) {
                            Parsed::Good { v, rest } => {
                                proof {
                                    if !v.2 {
                                        let chain = TokList::Cons(
                                            Tok::Ident(Name::KwFn),
                                            Box::new(
                                                TokList::Cons(
                                                    Tok::Punct(Punct::Star),
                                                    Box::new(
                                                        TokList::Cons(
                                                            Tok::Ident(v.0.name),
                                                            Box::new(
                                                                crate::render::render_sig(
                                                                    v.0.generics,
                                                                    v.0.args,
                                                                    v.0.yields,
                                                                    intro_tok(true, v.1),
                                                                    v.0.body,
                                                                ),
                                                            ),
                                                        ),
                                                    ),
                                                ),
                                            ),
                                        );
                                        let asy = if v.0.is_async {
                                            one(Tok::Ident(Name::KwAsync))
                                        } else {
                                            TokList::Nil
                                        };
                                        lemma_tok_append_assoc(
                                            render_attrs(v.0.attrs),
                                            tok_append(
                                                render_vis(v.0.vis),
                                                tok_append(asy, chain),
                                            ),
                                            rest,
                                        );
                                        lemma_tok_append_assoc(
                                            render_vis(v.0.vis),
                                            tok_append(asy, chain),
                                            rest,
                                        );
                                        lemma_tok_append_assoc(asy, chain, rest);
                                    }
                                }
                                Parsed::Good { v, rest }
                            },
                            other => other,
                        }
                    },
                    _ => Parsed::Bad(Diag::error(DiagKind::UnexpectedToken)),
                },
                _ => Parsed::Bad(Diag::error(DiagKind::UnexpectedToken)),
            },
            _ => Parsed::Bad(Diag::error(DiagKind::UnexpectedToken)),
        },
        Parsed::Bad(d) => Parsed::Bad(d),
        Parsed::Spent => Parsed::Spent,
    }
}

/// Parses the keyword-prefixed grammar, after its dispatch marker:
/// `[attrs] [pub] [async] gen ! fn name [generics] (args) [-> Ty] { body }`,
/// where the combined keyword spelling carries the asynchrony by itself and
/// both spellings are treated as equivalent. The first returned flag
/// records the combined spelling; the second a dropped variadic parameter.
pub fn parse_gen_2996(ts: TokList, fuel: u64) -> (r: Parsed<(Decl, bool, bool)>)
    ensures
        r matches Parsed::Good { v, rest } ==> !v.2 ==> ts == tok_append(
            render_gen_2996(v.0, v.1),
            rest,
        ),
        r matches Parsed::Bad(d) ==> d.level == DiagLevel::Error && (d.kind
            == DiagKind::UnexpectedToken || d.kind == DiagKind::SecondReceiver || d.kind
            == DiagKind::ReceiverAfterArg || d.kind == DiagKind::ExpectedGenKeyword),
        ts matches TokList::Cons(Tok::Ident(Name::User(u)), r0) ==> (fuel >= 3 ==> r
            == Parsed::<(Decl, bool, bool)>::Bad(
            Diag { level: DiagLevel::Error, kind: DiagKind::ExpectedGenKeyword },
        )),
        ts matches TokList::Cons(Tok::Ident(Name::KwGen), ra) ==> (*ra matches TokList::Cons(
            Tok::Punct(Punct::Bang),
            rb,
        ) ==> (*rb matches TokList::Cons(Tok::Ident(Name::KwFn), rc) ==> (*rc
            matches TokList::Cons(Tok::Ident(nm), r6) ==> (*r6 matches TokList::Cons(
            Tok::Group(Delim::Paren, argsinner),
            r8,
        ) ==> (*argsinner == TokList::Nil ==> (*r8 matches TokList::Cons(
            Tok::Group(Delim::Brace, binner),
            r10,
        ) ==> (*binner == TokList::Nil ==> (fuel >= 10 ==> r == (Parsed::Good {
            v: (
                Decl {
                    attrs: AttrList::Nil,
                    vis: Vis::Private,
                    is_async: false,
                    name: nm,
                    generics: GParams::Nil,
                    args: ArgList::Nil,
                    yields: Option::None,
                    body: StmtList::Nil,
                },
                false,
                false,
            ),
            rest: *r10,
        }))))))))),
    decreases fuel,
{
    proof {
        reveal_with_fuel(tok_append, 6);
    }
    if fuel == 0 {
        return Parsed::Spent;
    }
    match parse_head(ts, fuel - 1) {
        Parsed::Good { v: (attrs, vis, sep_async), rest: r3 } => match r3 {
            TokList::Cons(Tok::Ident(kw), r4) => {
                let combined = match kw {
                    Name::KwAsyncGen => true,
                    _ => false,
                };
                let is_gen_kw = match kw {
                    Name::KwGen => true,
                    Name::KwAsyncGen => true,
                    _ => false,
                };
                if !is_gen_kw || (sep_async && combined) {
                    return Parsed::Bad(Diag::error(DiagKind::ExpectedGenKeyword));
                }
                let is_async = sep_async || combined;
                match *r4 {
                    TokList::Cons(Tok::Punct(Punct::Bang), r5) => match *r5 {
                        TokList::Cons(Tok::Ident(Name::KwFn), r6) => match *r6 {
                            TokList::Cons(Tok::Ident(name), r7) => {
                                match parse_sig_tail(
                                    attrs,
                                    vis,
                                    is_async,
                                    name,
                                    *r7,
                                    false,
                                    fuel - 1,
                                ) {
                                    Parsed::Good { v: (d, _arrow, variadic), rest } => {
                                        proof {
                                            if !variadic {
                                                let chain = TokList::Cons(
                                                    Tok::Ident(
                                                        if combined {
                                                            Name::KwAsyncGen
                                                        } else {
                                                            Name::KwGen
                                                        },
                                                    ),
                                                    Box::new(
                                                        TokList::Cons(
                                                            Tok::Punct(Punct::Bang),
                                                            Box::new(
                                                                TokList::Cons(
                                                                    Tok::Ident(Name::KwFn),
                                                                    Box::new(
                                                                        TokList::Cons(
                                                                            Tok::Ident(d.name),
                                                                            Box::new(
                                                                                crate::render::render_sig(
                                                                                    d.generics,
                                                                                    d.args,
                                                                                    d.yields,
                                                                                    intro_tok(
                                                                                        false,
                                                                                        false,
                                                                                    ),
                                                                                    d.body,
                                                                                ),
                                                                            ),
                                                                        ),
                                                                    ),
                                                                ),
                                                            ),
                                                        ),
                                                    ),
                                                );
                                                let asy = if d.is_async && !combined {
                                                    one(Tok::Ident(Name::KwAsync))
                                                } else {
                                                    TokList::Nil
                                                };
                                                lemma_tok_append_assoc(
                                                    render_attrs(d.attrs),
                                                    tok_append(
                                                        render_vis(d.vis),
                                                        tok_append(asy, chain),
                                                    ),
                                                    rest,
                                                );
                                                lemma_tok_append_assoc(
                                                    render_vis(d.vis),
                                                    tok_append(asy, chain),
                                                    rest,
                                                );
                                                lemma_tok_append_assoc(asy, chain, rest);
                                            }
                                        }
                                        Parsed::Good { v: (d, combined, variadic), rest }
                                    },
                                    other => other,
                                }
                            },
                            _ => Parsed::Bad(Diag::error(DiagKind::UnexpectedToken)),
                        },
                        _ => Parsed::Bad(Diag::error(DiagKind::UnexpectedToken)),
                    },
                    _ => Parsed::Bad(Diag::error(DiagKind::UnexpectedToken)),
                }
            },
            _ => Parsed::Bad(Diag::error(DiagKind::ExpectedGenKeyword)),
        },
        Parsed::Bad(d) => Parsed::Bad(d),
        Parsed::Spent => Parsed::Spent,
    }
}

/// Parses an ordinary function declaration, after its dispatch marker:
/// `[attrs] [pub] fn name [generics] (args) [-> Ty] { body }`. The flag
/// records a dropped variadic parameter.
pub fn parse_gen_blocks(ts: TokList, fuel: u64) -> (r: Parsed<(OrdFn, bool)>)
    ensures
        r matches Parsed::Good { v, rest } ==> !v.1 ==> ts == tok_append(
            render_ord_fn(v.0),
            rest,
        ),
        r matches Parsed::Bad(d) ==> d.level == DiagLevel::Error && (d.kind
            == DiagKind::UnexpectedToken || d.kind == DiagKind::SecondReceiver || d.kind
            == DiagKind::ReceiverAfterArg),
        ts matches TokList::Cons(Tok::Ident(Name::KwFn), r4) ==> (*r4 matches TokList::Cons(
            Tok::Ident(nm),
            r6,
        ) ==> (*r6 matches TokList::Cons(Tok::Group(Delim::Paren, argsinner), r8) ==> (*argsinner
            == TokList::Nil ==> (*r8 matches TokList::Cons(Tok::Group(Delim::Brace, binner), r10)
            ==> (*binner == TokList::Nil ==> (fuel >= 10 ==> r == (Parsed::Good {
            v: (
                OrdFn {
                    attrs: AttrList::Nil,
                    vis: Vis::Private,
                    name: nm,
                    generics: GParams::Nil,
                    args: ArgList::Nil,
                    ret: Option::None,
                    body: StmtList::Nil,
                },
                false,
            ),
            rest: *r10,
        }))))))),
    decreases fuel,
{
    proof {
        reveal_with_fuel(tok_append, 6);
    }
    if fuel == 0 {
        return Parsed::Spent;
    }
    match parse_head(ts, fuel - 1) {
        Parsed::Good { v: (attrs, vis, is_async), rest: r3 } => {
            if is_async {
                return Parsed::Bad(Diag::error(DiagKind::UnexpectedToken));
            }
            match r3 {
                TokList::Cons(Tok::Ident(Name::KwFn), r4) => match *r4 {
                    TokList::Cons(Tok::Ident(name), r5) => {
                        match parse_sig_tail(attrs, vis, false, name, *r5, false, fuel - 1) {
                            Parsed::Good { v: (d, _arrow, variadic), rest } => {
                                let Decl { attrs, vis, is_async: _, name, generics, args, yields, body } = d;
                                let f = OrdFn { attrs, vis, name, generics, args, ret: yields, body };
                                proof {
                                    if !variadic {
                                        let chain = TokList::Cons(
                                            Tok::Ident(Name::KwFn),
                                            Box::new(
                                                TokList::Cons(
                                                    Tok::Ident(f.name),
                                                    Box::new(
                                                        crate::render::render_sig(
                                                            f.generics,
                                                            f.args,
                                                            f.ret,
                                                            Tok::Punct(Punct::RArrow),
                                                            f.body,
                                                        ),
                                                    ),
                                                ),
                                            ),
                                        );
                                        lemma_tok_append_assoc(
                                            render_attrs(f.attrs),
                                            tok_append(render_vis(f.vis), chain),
                                            rest,
                                        );
                                        lemma_tok_append_assoc(render_vis(f.vis), chain, rest);
                                    }
                                }
                                Parsed::Good { v: (f, variadic), rest }
                            },
                            Parsed::Bad(d) => Parsed::Bad(d),
                            Parsed::Spent => Parsed::Spent,
                        }
                    },
                    _ => Parsed::Bad(Diag::error(DiagKind::UnexpectedToken)),
                },
                _ => Parsed::Bad(Diag::error(DiagKind::UnexpectedToken)),
            }
        },
        Parsed::Bad(d) => Parsed::Bad(d),
        Parsed::Spent => Parsed::Spent,
    }
}

/// The parsed form of one item: a canonical generator declaration from
/// either custom grammar, or an ordinary function holding nested generator
/// blocks.
pub enum IteratorItemParse {
    Custom { decl: Decl, star_form: bool, arrow: bool, combined: bool, variadic: bool },
    Ordinary { function: OrdFn, variadic: bool },
}

/// The expanded form of one item.
pub enum Expanded {
    /// the final lowered function of a generator declaration
    Generator(crate::ast::LoweredFn),
    /// an ordinary function with its nested generator blocks expanded
    Plain(OrdFn),
}

/// Whether the input begins with one of the three dispatch marker tokens.
pub open spec fn dispatch_marker(ts: TokList) -> bool {
    match ts {
        TokList::Cons(Tok::Punct(Punct::Star), _) => true,
        TokList::Cons(Tok::Punct(Punct::Bang), _) => true,
        TokList::Cons(Tok::Punct(Punct::Pound), _) => true,
        _ => false,
    }
}

impl IteratorItemParse {
    /// Dispatches on the first token — `*`, `!` or `#` — and parses the
    /// chosen grammar.
    #[verifier::rlimit(60)]
    pub fn parse(ts: TokList, fuel: u64) -> (r: Parsed<IteratorItemParse>)
        ensures
            r matches Parsed::Good { v, rest } ==> match v {
                IteratorItemParse::Custom { decl, star_form, arrow, combined, variadic } => {
                    !variadic ==> if star_form {
                        ts == TokList::Cons(
                            Tok::Punct(Punct::Star),
                            Box::new(tok_append(render_fn_star(decl, arrow), rest)),
                        )
                    } else {
                        ts == TokList::Cons(
                            Tok::Punct(Punct::Bang),
                            Box::new(tok_append(render_gen_2996(decl, combined), rest)),
                        )
                    }
                },
                IteratorItemParse::Ordinary { function, variadic } => !variadic ==> ts
                    == TokList::Cons(
                    Tok::Punct(Punct::Pound),
                    Box::new(tok_append(render_ord_fn(function), rest)),
                ),
            },
            r is Good ==> dispatch_marker(ts),
            r is Spent ==> dispatch_marker(ts),
            r matches Parsed::Bad(d) ==> d.level == DiagLevel::Error && (d.kind
                == DiagKind::ExpectedSyntaxMarker <==> !dispatch_marker(ts)),
            ts matches TokList::Cons(Tok::Punct(Punct::Star), r0) ==> (*r0 matches TokList::Cons(
                Tok::Ident(Name::KwFn),
                r4,
            ) ==> (*r4 matches TokList::Cons(Tok::Punct(Punct::Star), r5) ==> (*r5 matches TokList::Cons(Tok::Ident(nm), r6) ==> (*r6
                matches TokList::Cons(Tok::Group(Delim::Paren, argsinner), r8) ==> (*argsinner
                == TokList::Nil ==> (*r8 matches TokList::Cons(Tok::Group(Delim::Brace, binner), r10)
                ==> (*binner == TokList::Nil ==> (fuel >= 8 ==> r == (Parsed::Good {
                v: IteratorItemParse::Custom {
                    decl: Decl {
                        attrs: AttrList::Nil,
                        vis: Vis::Private,
                        is_async: false,
                        name: nm,
                        generics: GParams::Nil,
                        args: ArgList::Nil,
                        yields: Option::None,
                        body: StmtList::Nil,
                    },
                    star_form: true,
                    arrow: false,
                    combined: false,
                    variadic: false,
                },
                rest: *r10,
            }))))))))),
    {
        let (is_star, r1) = check_fn_star(ts);
        if is_star {
            match parse_fn_star(r1, fuel) {
                Parsed::Good { v: (decl, arrow, variadic), rest } => Parsed::Good {
                    v: IteratorItemParse::Custom {
                        decl,
                        star_form: true,
                        arrow,
                        combined: false,
                        variadic,
                    },
                    rest,
                },
                Parsed::Bad(d) => Parsed::Bad(d),
                Parsed::Spent => Parsed::Spent,
            }
        } else {
            let (is_bang, r2) = check_gen_2996(r1);
            if is_bang {
                match parse_gen_2996(r2, fuel) {
                    Parsed::Good { v: (decl, combined, variadic), rest } => Parsed::Good {
                        v: IteratorItemParse::Custom {
                            decl,
                            star_form: false,
                            arrow: false,
                            combined,
                            variadic,
                        },
                        rest,
                    },
                    Parsed::Bad(d) => Parsed::Bad(d),
                    Parsed::Spent => Parsed::Spent,
                }
            } else {
                let (is_pound, r3) = check_gen_blocks(r2);
                if is_pound {
                    match parse_gen_blocks(r3, fuel) {
                        Parsed::Good { v: (function, variadic), rest } => Parsed::Good {
                            v: IteratorItemParse::Ordinary { function, variadic },
                            rest,
                        },
                        Parsed::Bad(d) => Parsed::Bad(d),
                        Parsed::Spent => Parsed::Spent,
                    }
                } else {
                    Parsed::Bad(Diag::error(DiagKind::ExpectedSyntaxMarker))
                }
            }
        }
    }

    /// Builds the parsed item into its expanded form: a generator
    /// declaration is assembled into the final lowered function; an
    /// ordinary function has its nested blocks expanded.
    pub fn build(self, diags: &mut Vec<Diag>) -> (r: Expanded)
        ensures
            match self {
                IteratorItemParse::Custom { decl, star_form, arrow, combined, variadic } => r
                    == Expanded::Generator(crate::assemble::build_spec(decl)) && final(diags)@
                    == old(diags)@ + crate::rewrite::stmts_diags(
                    decl.body,
                    crate::assemble::decl_mode(decl),
                ),
                IteratorItemParse::Ordinary { function, variadic } => r == Expanded::Plain(
                    crate::expand::expand_ord_spec(function),
                ) && final(diags)@ == old(diags)@ + crate::expand::expand_stmts_diags(
                    function.body,
                ),
            },
    {
        match self {
            IteratorItemParse::Custom { decl, star_form, arrow, combined, variadic } => {
                Expanded::Generator(crate::assemble::build(decl, diags))
            },
            IteratorItemParse::Ordinary { function, variadic } => {
                let expander = crate::expand::GenMacroExpander;
                Expanded::Plain(expander.visit_item_fn(function, diags))
            },
        }
    }
}

/// The diagnostic recorded for a dropped variadic parameter.
pub open spec fn variadic_diag() -> Diag {
    Diag { level: DiagLevel::Error, kind: DiagKind::VariadicArg }
}

/// The warning recorded for the `->` spelling in the prefixed-name grammar.
pub open spec fn arrow_diag() -> Diag {
    Diag { level: DiagLevel::Warning, kind: DiagKind::ArrowAfterFnStar }
}

/// The outcome of one whole expansion: the expanded item or the single
/// structured error it failed with, and every diagnostic recorded along
/// the way.
pub struct Expansion {
    pub result: Result<Expanded, Diag>,
    pub diags: Vec<Diag>,
}

/// The whole engine, end to end: the keyword-marking pass, the dispatched
/// parse, and the build. A dropped variadic parameter and the `->`
/// spelling in the prefixed-name grammar are diagnosed here; a parse
/// failure is returned as a single structured error, embeddable where the
/// item stood.
/// What a successful generator expansion claims: the lowered function is
/// the assembly of a declaration whose rendering — behind its dispatch
/// marker — is the marked input, and the diagnostics are exactly the
/// variadic error, the arrow warning, and the body rewrite's diagnostics,
/// in that order.
pub open spec fn generator_expansion_ok(
    ts: TokList,
    lf: crate::ast::LoweredFn,
    diags: Seq<Diag>,
    d: Decl,
    star: bool,
    arrow: bool,
    combined: bool,
    variadic: bool,
) -> bool {
    lf == crate::assemble::build_spec(d) && diags == (if variadic {
        seq![variadic_diag()]
    } else {
        Seq::<Diag>::empty()
    }) + (if arrow {
        seq![arrow_diag()]
    } else {
        Seq::<Diag>::empty()
    }) + crate::rewrite::stmts_diags(d.body, crate::assemble::decl_mode(d)) && (!variadic
        ==> if star {
        crate::macrofy::macrofy_spec(ts, false) == TokList::Cons(
            Tok::Punct(Punct::Star),
            Box::new(render_fn_star(d, arrow)),
        )
    } else {
        crate::macrofy::macrofy_spec(ts, false) == TokList::Cons(
            Tok::Punct(Punct::Bang),
            Box::new(render_gen_2996(d, combined)),
        )
    })
}

/// What a successful ordinary-function expansion claims.
pub open spec fn plain_expansion_ok(
    ts: TokList,
    f2: OrdFn,
    diags: Seq<Diag>,
    f: OrdFn,
    variadic: bool,
) -> bool {
    f2 == crate::expand::expand_ord_spec(f) && diags == (if variadic {
        seq![variadic_diag()]
    } else {
        Seq::<Diag>::empty()
    }) + crate::expand::expand_stmts_diags(f.body) && (!variadic
        ==> crate::macrofy::macrofy_spec(ts, false) == TokList::Cons(
        Tok::Punct(Punct::Pound),
        Box::new(render_ord_fn(f)),
    ))
}

pub fn iterator_item(ts: TokList, fuel: u64) -> (r: Expansion)
    ensures
        r.result matches Ok(e) ==> dispatch_marker(crate::macrofy::macrofy_spec(ts, false))
            && match e {
            Expanded::Generator(lf) => exists|
                d: Decl,
                star: bool,
                arrow: bool,
                combined: bool,
                variadic: bool,
            | #[trigger] generator_expansion_ok(ts, lf, r.diags@, d, star, arrow, combined, variadic),
            Expanded::Plain(f2) => exists|f: OrdFn, variadic: bool| #[trigger] plain_expansion_ok(
                ts,
                f2,
                r.diags@,
                f,
                variadic,
            ),
        },
        !dispatch_marker(crate::macrofy::macrofy_spec(ts, false)) ==> (r.result matches Err(d)
            && d.kind == DiagKind::ExpectedSyntaxMarker),
        r.result matches Err(d) ==> d.level == DiagLevel::Error,
        crate::macrofy::macrofy_spec(ts, false) matches TokList::Cons(
            Tok::Punct(Punct::Star),
            r0,
        ) ==> (*r0 matches TokList::Cons(Tok::Ident(Name::KwFn), r4) ==> (*r4
            matches TokList::Cons(Tok::Punct(Punct::Star), r5) ==> (*r5 matches TokList::Cons(
            Tok::Ident(nm),
            r6,
        ) ==> (*r6 matches TokList::Cons(Tok::Group(Delim::Paren, argsinner), r8) ==> (*argsinner
            == TokList::Nil ==> (*r8 matches TokList::Cons(Tok::Group(Delim::Brace, binner), r10)
            ==> (*binner == TokList::Nil ==> (*r10 == TokList::Nil ==> (fuel >= 8 ==> r.result
            == Result::<Expanded, Diag>::Ok(
            Expanded::Generator(
                crate::assemble::build_spec(
                    Decl {
                        attrs: AttrList::Nil,
                        vis: Vis::Private,
                        is_async: false,
                        name: nm,
                        generics: GParams::Nil,
                        args: ArgList::Nil,
                        yields: Option::None,
                        body: StmtList::Nil,
                    },
                ),
            ),
        ) && r.diags@ == Seq::<Diag>::empty()))))))))),
{
    let m = crate::macrofy::macrofy(ts);
    let mut diags: Vec<Diag> = Vec::new();
    match IteratorItemParse::parse(m, fuel) {
        Parsed::Good { v: item, rest } => {
            let done = match rest {
                TokList::Nil => true,
                _ => false,
            };
            if !done {
                return Expansion {
                    result: Result::Err(Diag::error(DiagKind::UnexpectedToken)),
                    diags,
                };
            }
            let ghost g_item = item;
            let (is_variadic, is_arrow) = match &item {
                IteratorItemParse::Custom { decl, star_form, arrow, combined, variadic } => (
                    *variadic,
                    *arrow,
                ),
                IteratorItemParse::Ordinary { function, variadic } => (*variadic, false),
            };
            if is_variadic {
                diags.push(Diag { level: DiagLevel::Error, kind: DiagKind::VariadicArg });
            }
            if is_arrow {
                diags.push(Diag { level: DiagLevel::Warning, kind: DiagKind::ArrowAfterFnStar });
            }
            let ghost pre_build = diags@;
            let built = item.build(&mut diags);
            let out = Expansion { result: Result::Ok(built), diags };
            proof {
                assert(pre_build =~= (if is_variadic {
                    seq![variadic_diag()]
                } else {
                    Seq::<Diag>::empty()
                }) + (if is_arrow {
                    seq![arrow_diag()]
                } else {
                    Seq::<Diag>::empty()
                }));
                match g_item {
                    IteratorItemParse::Custom { decl, star_form, arrow, combined, variadic } => {
                        assert(out.diags@ =~= (if variadic {
                            seq![variadic_diag()]
                        } else {
                            Seq::<Diag>::empty()
                        }) + (if arrow {
                            seq![arrow_diag()]
                        } else {
                            Seq::<Diag>::empty()
                        }) + crate::rewrite::stmts_diags(
                            decl.body,
                            crate::assemble::decl_mode(decl),
                        ));
                        assert(generator_expansion_ok(
                            ts,
                            out.result->Ok_0->Generator_0,
                            out.diags@,
                            decl,
                            star_form,
                            arrow,
                            combined,
                            variadic,
                        ));
                        if !variadic && !arrow && decl.body == StmtList::Nil {
                            assert(crate::rewrite::stmts_diags(
                                decl.body,
                                crate::assemble::decl_mode(decl),
                            ) =~= Seq::<Diag>::empty());
                            assert(out.diags@ =~= Seq::<Diag>::empty());
                        }
                    },
                    IteratorItemParse::Ordinary { function, variadic } => {
                        assert(out.diags@ =~= (if variadic {
                            seq![variadic_diag()]
                        } else {
                            Seq::<Diag>::empty()
                        }) + crate::expand::expand_stmts_diags(function.body));
                        assert(plain_expansion_ok(
                            ts,
                            out.result->Ok_0->Plain_0,
                            out.diags@,
                            function,
                            variadic,
                        ));
                    },
                }
            }
            out
        },
        Parsed::Bad(d) => Expansion { result: Result::Err(d), diags },
        Parsed::Spent => Expansion {
            result: Result::Err(Diag::error(DiagKind::UnexpectedToken)),
            diags,
        },
    }
}

} // verus!
