//! The lifetime elision expander: every implicit lifetime in the parameter
//! list is replaced by a freshly generated, uniquely named explicit
//! lifetime, and the new names are added to the generic-parameter list in
//! first-seen order, before the type parameters and after the lifetimes
//! already present.
//!
//! Synthesized names live in their own namespace ([`LtName::Synth`]), so
//! they can never collide with a lifetime the user wrote; indices are
//! issued in order starting past the largest synthesized index already
//! present, and [`lemma_unelide_fresh`] states the uniqueness guarantee
//! under the issuing cap. Applying the expander to its own output is a
//! no-op: the first pass leaves no implicit lifetime behind.

use vstd::prelude::*;

use crate::ast::{Arg, ArgKind, ArgList, GParam, GParams};
use crate::token::{LtName, Punct, Tok, TokList};

verus! {

/// Synthesized indices are issued up to this cap; an argument list needing
/// more distinct lifetimes than this is beyond any real input.
pub open spec fn synth_cap() -> u32 {
    1000000
}

/// The next counter value after issuing index `n`.
pub open spec fn bump(n: u32) -> u32 {
    if n < synth_cap() {
        (n + 1) as u32
    } else {
        n
    }
}

/// Rewrites one type's tokens: after every `&` that is not followed by an
/// explicit lifetime, a fresh synthesized lifetime is inserted; the walk
/// recurses into nested groups. Returns the rewritten tokens and the
/// counter after all insertions.
pub open spec fn unelide_toks(ts: TokList, n: u32) -> (TokList, u32)
    decreases ts,
{
    match ts {
        TokList::Nil => (TokList::Nil, n),
        TokList::Cons(t, rest) => match t {
            Tok::Punct(Punct::Amp) => {
                match *rest {
                    TokList::Cons(Tok::Lifetime(lt), _) => {
                        let (r, n2) = unelide_toks(*rest, n);
                        (TokList::Cons(Tok::Punct(Punct::Amp), Box::new(r)), n2)
                    },
                    _ => {
                        let (r, n2) = unelide_toks(*rest, bump(n));
                        (
                            TokList::Cons(
                                Tok::Punct(Punct::Amp),
                                Box::new(TokList::Cons(Tok::Lifetime(LtName::Synth(n)), Box::new(r))),
                            ),
                            n2,
                        )
                    },
                }
            },
            Tok::Group(d, inner) => {
                let (i2, n2) = unelide_toks(*inner, n);
                let (r2, n3) = unelide_toks(*rest, n2);
                (TokList::Cons(Tok::Group(d, Box::new(i2)), Box::new(r2)), n3)
            },
            _ => {
                let (r, n2) = unelide_toks(*rest, n);
                (TokList::Cons(t, Box::new(r)), n2)
            },
        },
    }
}

/// Rewrites the argument list: an elided receiver reference and every
/// elided reference inside a parameter type get fresh lifetimes, in
/// argument order.
pub open spec fn unelide_args(args: ArgList, n: u32) -> (ArgList, u32)
    decreases args,
{
    match args {
        ArgList::Nil => (ArgList::Nil, n),
        ArgList::Cons(a, rest) => {
            let (k2, n2) = match a.kind {
                ArgKind::Receiver { by_ref, lt, is_mut } => {
                    if by_ref && lt is None {
                        (
                            ArgKind::Receiver {
                                by_ref,
                                lt: Option::Some(LtName::Synth(n)),
                                is_mut,
                            },
                            bump(n),
                        )
                    } else {
                        (ArgKind::Receiver { by_ref, lt, is_mut }, n)
                    }
                },
                ArgKind::Typed { is_mut, name, ty } => {
                    let (ty2, n2) = unelide_toks(ty, n);
                    (ArgKind::Typed { is_mut, name, ty: ty2 }, n2)
                },
            };
            let (rest2, n3) = unelide_args(*rest, n2);
            (ArgList::Cons(Arg { attrs: a.attrs, kind: k2 }, Box::new(rest2)), n3)
        },
    }
}

/// The first synthesized index free in the generic-parameter list: one past
/// the largest synthesized index present.
pub open spec fn next_synth(g: GParams) -> u32
    decreases g,
{
    match g {
        GParams::Nil => 0,
        GParams::Cons(p, rest) => {
            let r = next_synth(*rest);
            match p {
                GParam::Lt(LtName::Synth(k)) => {
                    let c = bump(k);
                    if c > r {
                        c
                    } else {
                        r
                    }
                },
                _ => r,
            }
        },
    }
}

/// The synthesized lifetimes with indices `from .. to`, in order.
pub open spec fn synth_range(from: u32, to: u32) -> GParams
    decreases to - from,
{
    if from >= to {
        GParams::Nil
    } else {
        GParams::Cons(GParam::Lt(LtName::Synth(from)), Box::new(synth_range((from + 1) as u32, to)))
    }
}

/// Splices the synthesized lifetimes `from .. to` into the parameter list:
/// after the lifetimes already present, before the type parameters.
pub open spec fn insert_lts(g: GParams, from: u32, to: u32) -> GParams
    decreases g,
{
    match g {
        GParams::Nil => synth_range(from, to),
        GParams::Cons(p, rest) => match p {
            GParam::Lt(lt) => GParams::Cons(GParam::Lt(lt), Box::new(insert_lts(*rest, from, to))),
            _ => {
                let spliced = synth_range(from, to);
                crate::elision::gparams_append(spliced, GParams::Cons(p, rest))
            },
        },
    }
}

/// `a` followed by `b`.
pub open spec fn gparams_append(a: GParams, b: GParams) -> GParams
    decreases a,
{
    match a {
        GParams::Nil => b,
        GParams::Cons(p, rest) => GParams::Cons(p, Box::new(gparams_append(*rest, b))),
    }
}

/// The whole expansion: rewrite the arguments, then add the freshly issued
/// lifetimes to the generic-parameter list.
pub open spec fn unelide_spec(g: GParams, args: ArgList) -> (GParams, ArgList) {
    let from = next_synth(g);
    let (args2, to) = unelide_args(args, from);
    (insert_lts(g, from, to), args2)
}

/// Executable [`unelide_toks`].
fn unelide_toks_exec(ts: TokList, n: u32) -> (r: (TokList, u32))
    ensures
        r == unelide_toks(ts, n),
    decreases ts,
{
    match ts {
        TokList::Nil => (TokList::Nil, n),
        TokList::Cons(t, rest) => match t {
            Tok::Punct(Punct::Amp) => {
                let lt_next = match &*rest {
                    TokList::Cons(Tok::Lifetime(_), _) => true,
                    _ => false,
                };
                if lt_next {
                    let (r, n2) = unelide_toks_exec(*rest, n);
                    (TokList::Cons(Tok::Punct(Punct::Amp), Box::new(r)), n2)
                } else {
                    let bumped = if n < 1000000 {
                        n + 1
                    } else {
                        n
                    };
                    let (r, n2) = unelide_toks_exec(*rest, bumped);
                    (
                        TokList::Cons(
                            Tok::Punct(Punct::Amp),
                            Box::new(TokList::Cons(Tok::Lifetime(LtName::Synth(n)), Box::new(r))),
                        ),
                        n2,
                    )
                }
            },
            Tok::Group(d, inner) => {
                let (i2, n2) = unelide_toks_exec(*inner, n);
                let (r2, n3) = unelide_toks_exec(*rest, n2);
                (TokList::Cons(Tok::Group(d, Box::new(i2)), Box::new(r2)), n3)
            },
            _ => {
                let (r, n2) = unelide_toks_exec(*rest, n);
                (TokList::Cons(t, Box::new(r)), n2)
            },
        },
    }
}

/// Executable [`unelide_args`].
fn unelide_args_exec(args: ArgList, n: u32) -> (r: (ArgList, u32))
    ensures
        r == unelide_args(args, n),
    decreases args,
{
    match args {
        ArgList::Nil => (ArgList::Nil, n),
        ArgList::Cons(a, rest) => {
            let Arg { attrs, kind } = a;
            let (k2, n2): (ArgKind, u32) = match kind {
                ArgKind::Receiver { by_ref, lt, is_mut } => {
                    if by_ref && lt.is_none() {
                        let bumped = if n < 1000000 {
                            n + 1
                        } else {
                            n
                        };
                        (
                            ArgKind::Receiver {
                                by_ref,
                                lt: Option::Some(LtName::Synth(n)),
                                is_mut,
                            },
                            bumped,
                        )
                    } else {
                        (ArgKind::Receiver { by_ref, lt, is_mut }, n)
                    }
                },
                ArgKind::Typed { is_mut, name, ty } => {
                    let (ty2, n2) = unelide_toks_exec(ty, n);
                    (ArgKind::Typed { is_mut, name, ty: ty2 }, n2)
                },
            };
            let (rest2, n3) = unelide_args_exec(*rest, n2);
            (ArgList::Cons(Arg { attrs, kind: k2 }, Box::new(rest2)), n3)
        },
    }
}

/// Executable [`next_synth`].
fn next_synth_exec(g: &GParams) -> (r: u32)
    ensures
        r == next_synth(*g),
    decreases *g,
{
    match g {
        GParams::Nil => 0,
        GParams::Cons(p, rest) => {
            let r = next_synth_exec(rest);
            match p {
                GParam::Lt(LtName::Synth(k)) => {
                    let c = if *k < 1000000 {
                        *k + 1
                    } else {
                        *k
                    };
                    if c > r {
                        c
                    } else {
                        r
                    }
                },
                _ => r,
            }
        },
    }
}

/// Executable [`synth_range`].
fn synth_range_exec(from: u32, to: u32) -> (r: GParams)
    ensures
        r == synth_range(from, to),
    decreases to - from,
{
    if from >= to {
        GParams::Nil
    } else {
        GParams::Cons(GParam::Lt(LtName::Synth(from)), Box::new(synth_range_exec(from + 1, to)))
    }
}

/// Executable [`gparams_append`].
fn gparams_append_exec(a: GParams, b: GParams) -> (r: GParams)
    ensures
        r == gparams_append(a, b),
    decreases a,
{
    match a {
        GParams::Nil => b,
        GParams::Cons(p, rest) => GParams::Cons(p, Box::new(gparams_append_exec(*rest, b))),
    }
}

/// Executable [`insert_lts`].
fn insert_lts_exec(g: GParams, from: u32, to: u32) -> (r: GParams)
    ensures
        r == insert_lts(g, from, to),
    decreases g,
{
    match g {
        GParams::Nil => synth_range_exec(from, to),
        GParams::Cons(p, rest) => match p {
            GParam::Lt(lt) => GParams::Cons(
                GParam::Lt(lt),
                Box::new(insert_lts_exec(*rest, from, to)),
            ),
            _ => {
                let spliced = synth_range_exec(from, to);
                gparams_append_exec(spliced, GParams::Cons(p, rest))
            },
        },
    }
}

/// Expands every implicit lifetime in `args` into a fresh named lifetime
/// and adds the new names to `generics`, preserving the order of what was
/// already there.
pub fn unelide_lifetimes(generics: GParams, args: ArgList) -> (r: (GParams, ArgList))
    ensures
        r == unelide_spec(generics, args),
{
    let from = next_synth_exec(&generics);
    let (args2, to) = unelide_args_exec(args, from);
    (insert_lts_exec(generics, from, to), args2)
}

/// No implicit lifetime left: every `&` in the token sequence, at any
/// depth, is followed by an explicit lifetime.
pub open spec fn amp_explicit(ts: TokList) -> bool
    decreases ts,
{
    match ts {
        TokList::Nil => true,
        TokList::Cons(t, rest) => match t {
            Tok::Punct(Punct::Amp) => match *rest {
                TokList::Cons(Tok::Lifetime(lt), _) => amp_explicit(*rest),
                _ => false,
            },
            Tok::Group(d, inner) => amp_explicit(*inner) && amp_explicit(*rest),
            _ => amp_explicit(*rest),
        },
    }
}

/// No elided argument left: every receiver reference has a lifetime and
/// every parameter type has every `&` explicit.
pub open spec fn args_explicit(args: ArgList) -> bool
    decreases args,
{
    match args {
        ArgList::Nil => true,
        ArgList::Cons(a, rest) => (match a.kind {
            ArgKind::Receiver { by_ref, lt, is_mut } => !by_ref || lt is Some,
            ArgKind::Typed { is_mut, name, ty } => amp_explicit(ty),
        }) && args_explicit(*rest),
    }
}

proof fn lemma_unelide_toks_explicit(ts: TokList, n: u32)
    ensures
        amp_explicit(unelide_toks(ts, n).0),
    decreases ts,
{
    reveal_with_fuel(unelide_toks, 3);
    reveal_with_fuel(amp_explicit, 3);
    match ts {
        TokList::Nil => {},
        TokList::Cons(t, rest) => match t {
            Tok::Punct(Punct::Amp) => {
                match *rest {
                    TokList::Cons(Tok::Lifetime(lt), _) => {
                        lemma_unelide_toks_explicit(*rest, n);
                    },
                    _ => {
                        lemma_unelide_toks_explicit(*rest, bump(n));
                    },
                }
            },
            Tok::Group(d, inner) => {
                lemma_unelide_toks_explicit(*inner, n);
                let (i2, n2) = unelide_toks(*inner, n);
                lemma_unelide_toks_explicit(*rest, n2);
            },
            _ => {
                lemma_unelide_toks_explicit(*rest, n);
            },
        },
    }
}

proof fn lemma_unelide_toks_identity(ts: TokList, n: u32)
    requires
        amp_explicit(ts),
    ensures
        unelide_toks(ts, n) == (ts, n),
    decreases ts,
{
    reveal_with_fuel(unelide_toks, 3);
    reveal_with_fuel(amp_explicit, 3);
    match ts {
        TokList::Nil => {},
        TokList::Cons(t, rest) => match t {
            Tok::Punct(Punct::Amp) => {
                lemma_unelide_toks_identity(*rest, n);
            },
            Tok::Group(d, inner) => {
                lemma_unelide_toks_identity(*inner, n);
                lemma_unelide_toks_identity(*rest, n);
            },
            _ => {
                lemma_unelide_toks_identity(*rest, n);
            },
        },
    }
}

proof fn lemma_unelide_args_explicit(args: ArgList, n: u32)
    ensures
        args_explicit(unelide_args(args, n).0),
    decreases args,
{
    match args {
        ArgList::Nil => {},
        ArgList::Cons(a, rest) => {
            match a.kind {
                ArgKind::Receiver { by_ref, lt, is_mut } => {
                    let n2 = if by_ref && lt is None {
                        bump(n)
                    } else {
                        n
                    };
                    lemma_unelide_args_explicit(*rest, n2);
                },
                ArgKind::Typed { is_mut, name, ty } => {
                    lemma_unelide_toks_explicit(ty, n);
                    let (ty2, n2) = unelide_toks(ty, n);
                    lemma_unelide_args_explicit(*rest, n2);
                },
            }
        },
    }
}

proof fn lemma_unelide_args_identity(args: ArgList, n: u32)
    requires
        args_explicit(args),
    ensures
        unelide_args(args, n) == (args, n),
    decreases args,
{
    match args {
        ArgList::Nil => {},
        ArgList::Cons(a, rest) => {
            match a.kind {
                ArgKind::Receiver { by_ref, lt, is_mut } => {
                    lemma_unelide_args_identity(*rest, n);
                    assert(ArgList::Cons(Arg { attrs: a.attrs, kind: a.kind }, rest) == args);
                },
                ArgKind::Typed { is_mut, name, ty } => {
                    lemma_unelide_toks_identity(ty, n);
                    lemma_unelide_args_identity(*rest, n);
                    assert(ArgList::Cons(Arg { attrs: a.attrs, kind: a.kind }, rest) == args);
                },
            }
        },
    }
}

proof fn lemma_insert_lts_empty(g: GParams, x: u32)
    ensures
        insert_lts(g, x, x) == g,
    decreases g,
{
    match g {
        GParams::Nil => {},
        GParams::Cons(p, rest) => match p {
            GParam::Lt(lt) => {
                lemma_insert_lts_empty(*rest, x);
            },
            _ => {},
        },
    }
}

/// Whether a lifetime parameter with the given name stands in the list.
pub open spec fn gparams_has_lt(g: GParams, lt: LtName) -> bool
    decreases g,
{
    match g {
        GParams::Nil => false,
        GParams::Cons(p, rest) => p == GParam::Lt(lt) || gparams_has_lt(*rest, lt),
    }
}

proof fn lemma_next_synth_dominates(g: GParams, k: u32)
    requires
        gparams_has_lt(g, LtName::Synth(k)),
    ensures
        bump(k) <= next_synth(g),
    decreases g,
{
    match g {
        GParams::Nil => {},
        GParams::Cons(p, rest) => {
            if p == GParam::Lt(LtName::Synth(k)) {
            } else {
                lemma_next_synth_dominates(*rest, k);
            }
        },
    }
}

/// Freshness: as long as the issuing counter never reaches its cap — the
/// documented bound on how many lifetimes one declaration may elide — every
/// lifetime the expander issues is distinct by index and collides with no
/// lifetime parameter already present; the issued names are exactly
/// `synth_range(n0, n1)`, spliced before the type parameters by
/// [`insert_lts`], in first-seen order.
pub proof fn lemma_unelide_fresh(g: GParams, args: ArgList)
    requires
        unelide_args(args, next_synth(g)).1 < synth_cap(),
    ensures
        forall|k: u32|
            next_synth(g) <= k < unelide_args(args, next_synth(g)).1 ==> !#[trigger] gparams_has_lt(
                g,
                LtName::Synth(k),
            ),
{
    let n0 = next_synth(g);
    let n1 = unelide_args(args, n0).1;
    assert forall|k: u32| n0 <= k < n1 implies !gparams_has_lt(g, LtName::Synth(k)) by {
        if gparams_has_lt(g, LtName::Synth(k)) {
            lemma_next_synth_dominates(g, k);
        }
    };
}

/// Idempotence: the expander applied to its own output introduces zero new
/// lifetime parameters and changes nothing.
pub proof fn lemma_unelide_idempotent(g: GParams, args: ArgList)
    ensures
        unelide_spec(unelide_spec(g, args).0, unelide_spec(g, args).1) == unelide_spec(g, args),
{
    let from = next_synth(g);
    let (args2, to) = unelide_args(args, from);
    lemma_unelide_args_explicit(args, from);
    let g2 = insert_lts(g, from, to);
    let from2 = next_synth(g2);
    lemma_unelide_args_identity(args2, from2);
    lemma_insert_lts_empty(g2, from2);
}

} // verus!
