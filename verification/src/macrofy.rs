//! The nested-macro rewriter: a streaming token pass that turns a bare
//! generator keyword into an explicit invocation, so that a later parse can
//! recognize generator expressions anywhere an expression is expected.
//!
//! `gen { .. }` becomes `gen ! { .. }`, and `async gen { .. }` becomes
//! `async_gen ! { .. }`. The pass recurses into every bracketed group and
//! keeps one token of lookback (a pending `async`). A keyword that is already
//! followed by the invocation marker is left alone, which makes the whole
//! pass idempotent.

use vstd::prelude::*;

use crate::token::{Name, Punct, Tok, TokList};

verus! {

/// Whether the sequence begins with the invocation marker `!`.
pub open spec fn starts_with_bang(ts: TokList) -> bool {
    match ts {
        TokList::Cons(Tok::Punct(Punct::Bang), _) => true,
        _ => false,
    }
}

/// The rewrite, with the lookback state made explicit: `pending` records that
/// an `async` token has been read and held back.
pub open spec fn macrofy_spec(ts: TokList, pending: bool) -> TokList
    decreases ts, (if pending { 1int } else { 0int }),
{
    match ts {
        TokList::Nil => {
            if pending {
                TokList::Cons(Tok::Ident(Name::KwAsync), Box::new(TokList::Nil))
            } else {
                TokList::Nil
            }
        },
        TokList::Cons(t, rest) => {
            if pending {
                match t {
                    Tok::Ident(Name::KwGen) => {
                        if starts_with_bang(*rest) {
                            TokList::Cons(
                                Tok::Ident(Name::KwAsyncGen),
                                Box::new(macrofy_spec(*rest, false)),
                            )
                        } else {
                            TokList::Cons(
                                Tok::Ident(Name::KwAsyncGen),
                                Box::new(
                                    TokList::Cons(
                                        Tok::Punct(Punct::Bang),
                                        Box::new(macrofy_spec(*rest, false)),
                                    ),
                                ),
                            )
                        }
                    },
                    _ => TokList::Cons(
                        Tok::Ident(Name::KwAsync),
                        Box::new(macrofy_spec(TokList::Cons(t, rest), false)),
                    ),
                }
            } else {
                match t {
                    Tok::Ident(Name::KwGen) => {
                        if starts_with_bang(*rest) {
                            TokList::Cons(
                                Tok::Ident(Name::KwGen),
                                Box::new(macrofy_spec(*rest, false)),
                            )
                        } else {
                            TokList::Cons(
                                Tok::Ident(Name::KwGen),
                                Box::new(
                                    TokList::Cons(
                                        Tok::Punct(Punct::Bang),
                                        Box::new(macrofy_spec(*rest, false)),
                                    ),
                                ),
                            )
                        }
                    },
                    Tok::Ident(Name::KwAsync) => macrofy_spec(*rest, true),
                    Tok::Group(d, inner) => TokList::Cons(
                        Tok::Group(d, Box::new(macrofy_spec(*inner, false))),
                        Box::new(macrofy_spec(*rest, false)),
                    ),
                    _ => TokList::Cons(t, Box::new(macrofy_spec(*rest, false))),
                }
            }
        },
    }
}

/// Executable form of the rewrite.
fn macrofy_go(ts: TokList, pending: bool) -> (r: TokList)
    ensures
        r == macrofy_spec(ts, pending),
    decreases ts, (if pending { 1int } else { 0int }),
{
    match ts {
        TokList::Nil => {
            if pending {
                TokList::Cons(Tok::Ident(Name::KwAsync), Box::new(TokList::Nil))
            } else {
                TokList::Nil
            }
        },
        TokList::Cons(t, rest) => {
            let bang_next = match &*rest {
                TokList::Cons(Tok::Punct(Punct::Bang), _) => true,
                _ => false,
            };
            if pending {
                match t {
                    Tok::Ident(Name::KwGen) => {
                        if bang_next {
                            TokList::Cons(
                                Tok::Ident(Name::KwAsyncGen),
                                Box::new(macrofy_go(*rest, false)),
                            )
                        } else {
                            TokList::Cons(
                                Tok::Ident(Name::KwAsyncGen),
                                Box::new(
                                    TokList::Cons(
                                        Tok::Punct(Punct::Bang),
                                        Box::new(macrofy_go(*rest, false)),
                                    ),
                                ),
                            )
                        }
                    },
                    _ => TokList::Cons(
                        Tok::Ident(Name::KwAsync),
                        Box::new(macrofy_go(TokList::Cons(t, rest), false)),
                    ),
                }
            } else {
                match t {
                    Tok::Ident(Name::KwGen) => {
                        if bang_next {
                            TokList::Cons(
                                Tok::Ident(Name::KwGen),
                                Box::new(macrofy_go(*rest, false)),
                            )
                        } else {
                            TokList::Cons(
                                Tok::Ident(Name::KwGen),
                                Box::new(
                                    TokList::Cons(
                                        Tok::Punct(Punct::Bang),
                                        Box::new(macrofy_go(*rest, false)),
                                    ),
                                ),
                            )
                        }
                    },
                    Tok::Ident(Name::KwAsync) => macrofy_go(*rest, true),
                    Tok::Group(d, inner) => TokList::Cons(
                        Tok::Group(d, Box::new(macrofy_go(*inner, false))),
                        Box::new(macrofy_go(*rest, false)),
                    ),
                    _ => TokList::Cons(t, Box::new(macrofy_go(*rest, false))),
                }
            }
        },
    }
}

/// Rewrites every bare generator keyword in the stream into an explicit
/// invocation, recursing into nested groups; all other tokens pass through
/// unchanged.
pub fn macrofy(ts: TokList) -> (r: TokList)
    ensures
        r == macrofy_spec(ts, false),
{
    macrofy_go(ts, false)
}

/// A sequence is marked when every generator keyword in it (at any nesting
/// depth) is already followed by the invocation marker, and no bare `async`
/// immediately precedes a generator keyword.
pub open spec fn marked(ts: TokList) -> bool
    decreases ts,
{
    match ts {
        TokList::Nil => true,
        TokList::Cons(t, rest) => match t {
            Tok::Ident(Name::KwGen) => starts_with_bang(*rest) && marked(*rest),
            Tok::Ident(Name::KwAsync) => match *rest {
                TokList::Cons(Tok::Ident(Name::KwGen), _) => false,
                _ => marked(*rest),
            },
            Tok::Group(_, inner) => marked(*inner) && marked(*rest),
            _ => marked(*rest),
        },
    }
}

/// The rewrite only produces marked sequences.
pub proof fn lemma_macrofy_marked(ts: TokList, pending: bool)
    ensures
        marked(macrofy_spec(ts, pending)),
    decreases ts, (if pending { 1int } else { 0int }),
{
    reveal_with_fuel(macrofy_spec, 3);
    reveal_with_fuel(marked, 3);
    match ts {
        TokList::Nil => {},
        TokList::Cons(t, rest) => {
            if pending {
                match t {
                    Tok::Ident(Name::KwGen) => {
                        lemma_macrofy_marked(*rest, false);
                    },
                    _ => {
                        lemma_macrofy_marked(TokList::Cons(t, rest), false);
                        lemma_macrofy_head_not_gen(TokList::Cons(t, rest), false);
                    },
                }
            } else {
                match t {
                    Tok::Ident(Name::KwGen) => {
                        lemma_macrofy_marked(*rest, false);
                    },
                    Tok::Ident(Name::KwAsync) => {
                        lemma_macrofy_marked(*rest, true);
                    },
                    Tok::Group(_, inner) => {
                        lemma_macrofy_marked(*inner, false);
                        lemma_macrofy_marked(*rest, false);
                    },
                    _ => {
                        lemma_macrofy_marked(*rest, false);
                    },
                }
            }
        },
    }
}

/// Unless its input begins with a bare generator keyword being rewritten, the
/// rewrite never begins its output with a bare generator keyword; in
/// particular the output of processing anything under a pending `async` never
/// starts with one.
proof fn lemma_macrofy_head_not_gen(ts: TokList, pending: bool)
    requires
        match ts {
            TokList::Cons(Tok::Ident(Name::KwGen), _) => pending,
            _ => true,
        },
    ensures
        match macrofy_spec(ts, pending) {
            TokList::Cons(Tok::Ident(Name::KwGen), _) => false,
            _ => true,
        },
    decreases ts, (if pending { 1int } else { 0int }),
{
    match ts {
        TokList::Nil => {},
        TokList::Cons(t, rest) => {
            if !pending {
                match t {
                    Tok::Ident(Name::KwAsync) => {
                        lemma_macrofy_head_not_gen_pending(*rest);
                    },
                    _ => {},
                }
            }
        },
    }
}

/// Under a pending `async`, the output never starts with a bare generator
/// keyword.
proof fn lemma_macrofy_head_not_gen_pending(ts: TokList)
    ensures
        match macrofy_spec(ts, true) {
            TokList::Cons(Tok::Ident(Name::KwGen), _) => false,
            _ => true,
        },
    decreases ts,
{
}

/// On a marked sequence the rewrite is the identity.
pub proof fn lemma_macrofy_marked_identity(ts: TokList)
    requires
        marked(ts),
    ensures
        macrofy_spec(ts, false) == ts,
    decreases ts,
{
    reveal_with_fuel(macrofy_spec, 3);
    reveal_with_fuel(marked, 3);
    match ts {
        TokList::Nil => {},
        TokList::Cons(t, rest) => {
            match t {
                Tok::Ident(Name::KwGen) => {
                    lemma_macrofy_marked_identity(*rest);
                },
                Tok::Ident(Name::KwAsync) => {
                    match *rest {
                        TokList::Cons(t2, rest2) => {
                            lemma_macrofy_marked_identity(*rest);
                        },
                        TokList::Nil => {},
                    }
                },
                Tok::Group(_, inner) => {
                    lemma_macrofy_marked_identity(*inner);
                    lemma_macrofy_marked_identity(*rest);
                },
                _ => {
                    lemma_macrofy_marked_identity(*rest);
                },
            }
        },
    }
}

/// The rewrite is idempotent: applying it to its own output changes nothing,
/// and in particular never inserts a second invocation marker.
pub proof fn lemma_macrofy_idempotent(ts: TokList)
    ensures
        macrofy_spec(macrofy_spec(ts, false), false) == macrofy_spec(ts, false),
{
    lemma_macrofy_marked(ts, false);
    lemma_macrofy_marked_identity(macrofy_spec(ts, false));
}

} // verus!
