//! The sequence-producer wrappers around a lowered computation, and the
//! evaluation of the captured size-hint expression.
//!
//! A lowered function returns a value owning the suspendable computation
//! and the size-hint pair. The synchronous wrapper is pulled like an
//! iterator; the asynchronous one is polled like a stream. The size-hint
//! expression is evaluated once, when the producer is constructed — before
//! the computation runs — so it may read an argument iterator that the body
//! is about to consume.

use vstd::prelude::*;

use crate::ast::GenExpansion;
use crate::driver::{
    Binding, Env, EvalOut, ExecFlow, RunRes, Val, ValList, bind, eval_expr, eval_expr_exec,
    lookup, env_lookup, run_stmts, run_stmts_exec, vallist_len,
};
use crate::expr::{Expr, Place, Stmt, StmtList};
use crate::token::{Delim, Name, Punct, Tok, TokList};

verus! {

/// A recognized size-hint expression: a literal pair, or "the hint of an
/// argument iterator with both bounds raised by a constant".
#[derive(Clone, Copy, PartialEq, Eq, Structural, Debug)]
pub enum HintExpr {
    Lit(u64, Option<u64>),
    IterPlus(Name, u64),
}

/// Parses the pair tokens `a , None` or `a , Some ( b )`.
pub open spec fn parse_hint_pair(ts: TokList) -> Option<HintExpr> {
    match ts {
        TokList::Cons(Tok::LitInt(a), r1) => match *r1 {
            TokList::Cons(Tok::Punct(Punct::Comma), r2) => match *r2 {
                TokList::Cons(Tok::Ident(Name::CtorNone), r3) => match *r3 {
                    TokList::Nil => Option::Some(HintExpr::Lit(a, Option::None)),
                    _ => Option::None,
                },
                TokList::Cons(Tok::Ident(Name::CtorSome), r3) => match *r3 {
                    TokList::Cons(Tok::Group(Delim::Paren, inner), r4) => match (*inner, *r4) {
                        (TokList::Cons(Tok::LitInt(b), r5), TokList::Nil) => match *r5 {
                            TokList::Nil => Option::Some(HintExpr::Lit(a, Option::Some(b))),
                            _ => Option::None,
                        },
                        _ => Option::None,
                    },
                    _ => Option::None,
                },
                _ => Option::None,
            },
            _ => Option::None,
        },
        _ => Option::None,
    }
}

/// Parses a captured size-hint argument: `((a, Some(b)))`, `((a, None))`,
/// or `({ iter + k })`.
pub open spec fn parse_hint(args: TokList) -> Option<HintExpr> {
    match args {
        TokList::Cons(Tok::Group(Delim::Paren, outer), r0) => match (*outer, *r0) {
            (TokList::Cons(inner_tok, r1), TokList::Nil) => match (inner_tok, *r1) {
                (Tok::Group(Delim::Paren, pair), TokList::Nil) => parse_hint_pair(*pair),
                (Tok::Group(Delim::Brace, bexp), TokList::Nil) => match *bexp {
                    TokList::Cons(Tok::Ident(n), b1) => match *b1 {
                        TokList::Cons(Tok::Punct(Punct::Plus), b2) => match *b2 {
                            TokList::Cons(Tok::LitInt(k), b3) => match *b3 {
                                TokList::Nil => Option::Some(HintExpr::IterPlus(n, k)),
                                _ => Option::None,
                            },
                            _ => Option::None,
                        },
                        _ => Option::None,
                    },
                    _ => Option::None,
                },
                _ => Option::None,
            },
            _ => Option::None,
        },
        _ => Option::None,
    }
}

/// The value of the captured size-hint expression over the construction
/// environment. Absent any captured expression, the default is (zero, no
/// upper bound). A literal pair is itself; the iterator form reports the
/// length of the named list argument, both bounds raised by the constant.
pub open spec fn hint_value(hint: Option<TokList>, env: Env) -> Option<(usize, Option<usize>)> {
    match hint {
        Option::None => Option::Some((0usize, Option::None)),
        Option::Some(args) => match parse_hint(args) {
            Option::None => Option::None,
            Option::Some(HintExpr::Lit(a, b)) => {
                if a <= usize::MAX as u64 {
                    match b {
                        Option::None => Option::Some((a as usize, Option::None)),
                        Option::Some(bv) => {
                            if bv <= usize::MAX as u64 {
                                Option::Some((a as usize, Option::Some(bv as usize)))
                            } else {
                                Option::None
                            }
                        },
                    }
                } else {
                    Option::None
                }
            },
            Option::Some(HintExpr::IterPlus(n, k)) => match lookup(env, Place::Var(n)) {
                Option::Some(Val::VList(items)) => {
                    let total = vallist_len(*items) + k;
                    if total <= usize::MAX {
                        Option::Some((total as usize, Option::Some(total as usize)))
                    } else {
                        Option::None
                    }
                },
                _ => Option::None,
            },
        },
    }
}

/// Parses the pair tokens (executable form).
fn parse_hint_pair_exec(ts: &TokList) -> (r: Option<HintExpr>)
    ensures
        r == parse_hint_pair(*ts),
{
    match ts {
        TokList::Cons(Tok::LitInt(a), r1) => match &**r1 {
            TokList::Cons(Tok::Punct(Punct::Comma), r2) => match &**r2 {
                TokList::Cons(Tok::Ident(Name::CtorNone), r3) => match &**r3 {
                    TokList::Nil => Option::Some(HintExpr::Lit(*a, Option::None)),
                    _ => Option::None,
                },
                TokList::Cons(Tok::Ident(Name::CtorSome), r3) => match &**r3 {
                    TokList::Cons(Tok::Group(Delim::Paren, inner), r4) => match (&**inner, &**r4) {
                        (TokList::Cons(Tok::LitInt(b), r5), TokList::Nil) => match &**r5 {
                            TokList::Nil => Option::Some(HintExpr::Lit(*a, Option::Some(*b))),
                            _ => Option::None,
                        },
                        _ => Option::None,
                    },
                    _ => Option::None,
                },
                _ => Option::None,
            },
            _ => Option::None,
        },
        _ => Option::None,
    }
}

/// Parses a captured size-hint argument (executable form).
pub fn parse_hint_exec(args: &TokList) -> (r: Option<HintExpr>)
    ensures
        r == parse_hint(*args),
{
    match args {
        TokList::Cons(Tok::Group(Delim::Paren, outer), r0) => match (&**outer, &**r0) {
            (TokList::Cons(inner_tok, r1), TokList::Nil) => match (inner_tok, &**r1) {
                (Tok::Group(Delim::Paren, pair), TokList::Nil) => parse_hint_pair_exec(pair),
                (Tok::Group(Delim::Brace, bexp), TokList::Nil) => match &**bexp {
                    TokList::Cons(Tok::Ident(n), b1) => match &**b1 {
                        TokList::Cons(Tok::Punct(Punct::Plus), b2) => match &**b2 {
                            TokList::Cons(Tok::LitInt(k), b3) => match &**b3 {
                                TokList::Nil => Option::Some(HintExpr::IterPlus(*n, *k)),
                                _ => Option::None,
                            },
                            _ => Option::None,
                        },
                        _ => Option::None,
                    },
                    _ => Option::None,
                },
                _ => Option::None,
            },
            _ => Option::None,
        },
        _ => Option::None,
    }
}

/// The length of a value list, when it fits the machine.
fn vallist_len_exec(l: &ValList) -> (r: Option<usize>)
    ensures
        match r {
            Option::Some(n) => n == vallist_len(*l),
            Option::None => vallist_len(*l) > usize::MAX,
        },
    decreases *l,
{
    match l {
        ValList::Nil => Option::Some(0),
        ValList::Cons(_, rest) => match vallist_len_exec(rest) {
            Option::Some(n) => {
                if n < usize::MAX {
                    Option::Some(n + 1)
                } else {
                    Option::None
                }
            },
            Option::None => Option::None,
        },
    }
}

/// Evaluates the captured size-hint expression (executable form).
pub fn eval_hint(hint: &Option<TokList>, env: &Env) -> (r: Option<(usize, Option<usize>)>)
    ensures
        r == hint_value(*hint, *env),
{
    match hint {
        Option::None => Option::Some((0usize, Option::None)),
        Option::Some(args) => match parse_hint_exec(args) {
            Option::None => Option::None,
            Option::Some(HintExpr::Lit(a, b)) => {
                if a <= usize::MAX as u64 {
                    match b {
                        Option::None => Option::Some((a as usize, Option::None)),
                        Option::Some(bv) => {
                            if bv <= usize::MAX as u64 {
                                Option::Some((a as usize, Option::Some(bv as usize)))
                            } else {
                                Option::None
                            }
                        },
                    }
                } else {
                    Option::None
                }
            },
            Option::Some(HintExpr::IterPlus(n, k)) => match env_lookup(env, Place::Var(n)) {
                Option::Some(Val::VList(items)) => match vallist_len_exec(&items) {
                    Option::Some(len) => {
                        if k <= usize::MAX as u64 && len <= usize::MAX - (k as usize) {
                            let total = len + (k as usize);
                            Option::Some((total, Option::Some(total)))
                        } else {
                            Option::None
                        }
                    },
                    Option::None => Option::None,
                },
                _ => Option::None,
            },
        },
    }
}

/// The suspendable computation a lowered function constructs: its body and
/// the environment it captured.
pub struct GenComputation {
    pub body: StmtList,
    pub env: Env,
}

/// The synchronous sequence producer: owns the computation and reports the
/// stored size hint verbatim.
pub struct IteratorItem {
    pub gen: GenComputation,
    pub size_hint: (usize, Option<usize>),
}

impl IteratorItem {
    /// Reports the stored size-hint pair, verbatim.
    pub fn size_hint(&self) -> (r: (usize, Option<usize>))
        ensures
            r == self.size_hint,
    {
        (self.size_hint.0, self.size_hint.1)
    }

    /// Drives the computation to exhaustion, pulling every value it
    /// suspends with, in order.
    pub fn into_items(self, fuel: u64) -> (r: Option<Vec<Val>>)
        ensures
            match run_stmts(self.gen.body, self.gen.env, fuel as nat) {
                RunRes::Done { env, out, stopped } => r matches Some(v) && v@ == out,
                RunRes::Failed => r is None,
            },
    {
        let IteratorItem { gen, size_hint } = self;
        let GenComputation { body, env } = gen;
        let mut out: Vec<Val> = Vec::new();
        match run_stmts_exec(&body, env, &mut out, fuel) {
            ExecFlow::Failed => Option::None,
            _ => Option::Some(out),
        }
    }
}

/// One poll of an asynchronous sequence: a ready value, or not yet.
pub enum Polled {
    Ready(Val),
    Pending,
}

/// The asynchronous sequence producer: owns the computation (which suspends
/// with polled values) and reports the stored size hint verbatim.
pub struct AsyncIteratorItem {
    pub gen: GenComputation,
    pub size_hint: (usize, Option<usize>),
}

impl AsyncIteratorItem {
    /// Reports the stored size-hint pair, verbatim.
    pub fn size_hint(&self) -> (r: (usize, Option<usize>))
        ensures
            r == self.size_hint,
    {
        (self.size_hint.0, self.size_hint.1)
    }

    /// Drives the computation to exhaustion, collecting one ready poll for
    /// every suspended value, in order.
    pub fn into_polls(self, fuel: u64) -> (r: Option<Vec<Polled>>)
        ensures
            match run_stmts(self.gen.body, self.gen.env, fuel as nat) {
                RunRes::Done { env, out, stopped } => r matches Some(p) && p@.len() == out.len()
                    && (forall|i: int| 0 <= i < out.len() ==> p@[i] == Polled::Ready(#[trigger] out[i])),
                RunRes::Failed => r is None,
            },
    {
        let AsyncIteratorItem { gen, size_hint } = self;
        let GenComputation { body, env } = gen;
        let mut out: Vec<Val> = Vec::new();
        match run_stmts_exec(&body, env, &mut out, fuel) {
            ExecFlow::Failed => Option::None,
            _ => {
                let ghost outs = out@;
                let mut polls: Vec<Polled> = Vec::new();
                let mut i: usize = 0;
                let n = out.len();
                while i < n
                    invariant
                        n == outs.len(),
                        out@ == outs,
                        0 <= i <= n,
                        polls@.len() == i,
                        forall|j: int| 0 <= j < i ==> polls@[j] == Polled::Ready(#[trigger] outs[j]),
                    decreases n - i,
                {
                    let v = crate::driver::val_clone(&out[i]);
                    polls.push(Polled::Ready(v));
                    i = i + 1;
                }
                Option::Some(polls)
            },
        }
    }
}

/// Constructs the synchronous producer for a lowered generator expression:
/// the size hint is evaluated here, once, before the computation can run.
pub fn iterator_of(gx: GenExpansion, env: Env) -> (r: Option<IteratorItem>)
    ensures
        gx.is_async ==> r is None,
        !gx.is_async ==> match hint_value(gx.hint, env) {
            Option::Some(h) => r matches Some(it) && it.gen.body == gx.body && it.gen.env == env
                && it.size_hint == h,
            Option::None => r is None,
        },
{
    let GenExpansion { is_async, hint, body } = gx;
    if is_async {
        Option::None
    } else {
        match eval_hint(&hint, &env) {
            Option::Some(h) => Option::Some(
                IteratorItem { gen: GenComputation { body, env }, size_hint: h },
            ),
            Option::None => Option::None,
        }
    }
}

/// Constructs the asynchronous producer for a lowered generator expression.
pub fn stream_of(gx: GenExpansion, env: Env) -> (r: Option<AsyncIteratorItem>)
    ensures
        !gx.is_async ==> r is None,
        gx.is_async ==> match hint_value(gx.hint, env) {
            Option::Some(h) => r matches Some(it) && it.gen.body == gx.body && it.gen.env == env
                && it.size_hint == h,
            Option::None => r is None,
        },
{
    let GenExpansion { is_async, hint, body } = gx;
    if !is_async {
        Option::None
    } else {
        match eval_hint(&hint, &env) {
            Option::Some(h) => Option::Some(
                AsyncIteratorItem { gen: GenComputation { body, env }, size_hint: h },
            ),
            Option::None => Option::None,
        }
    }
}

} // verus!
