//! The body language: the closed set of statement and expression shapes the
//! engine recognizes inside a generator body.
//!
//! Control-flow constructs appear twice: once in the surface form the user
//! writes (`yield`, `.await`, `?`, `return`) and once in the lowered form
//! the body rewriter emits (explicit suspensions and try-branches). A body
//! before rewriting holds only surface forms; a body after rewriting holds
//! only lowered forms (and the surface forms the rewrite leaves unchanged).

use vstd::prelude::*;

use crate::ast::{AttrList, GenExpansion};
use crate::token::{Name, TokList};

verus! {

/// A place the body can read or update: a variable, or a numbered field of
/// the receiver (`self.0`).
#[derive(Clone, Copy, PartialEq, Eq, Structural, Debug)]
pub enum Place {
    Var(Name),
    SelfField(u32),
}

/// One expression.
pub enum Expr {
    /// `()`
    Unit,
    /// an integer literal
    IntLit(i64),
    /// reading a place
    Read(Place),
    /// `- e`
    NegOf(Box<Expr>),
    /// `Some(e)`
    SomeOf(Box<Expr>),
    /// `None`
    NoneLit,
    /// `Ok(e)`
    OkOf(Box<Expr>),
    /// `Err(e)`
    ErrOf(Box<Expr>),
    /// `ready(e)`: a future that is immediately ready with a value
    ReadyOf(Box<Expr>),
    /// `[e, e, ...]`: a list literal; a list is what the body iterates over
    ListLit(Box<ExprList>),
    /// `place.take()`
    TakeOf(Place),
    /// `place.next()`
    NextOf(Place),
    /// `a.overlaps(b)`: whether two intervals touch
    OverlapsOf { recv: Box<Expr>, arg: Box<Expr> },
    /// `a.merge(b)`: the union of two touching intervals
    MergeOf { recv: Box<Expr>, arg: Box<Expr> },
    /// `..`: a bare full-range argument
    RangeFull,
    /// `recv.method(args)` for any method the grammar does not know: carried
    /// through so that rewriting can reach generator blocks nested inside
    CallOpaque { method: Name, recv: Box<Expr>, arg: Option<Box<Expr>> },
    /// `name ! { .. }`: a macro invocation, as produced by the keyword
    /// marking pass for generator expression blocks
    MacCall { name: Name, mac: MacArg },
    /// an expanded generator expression block
    Producer(Box<GenExpansion>),
    /// an inert error marker left where a nested block failed to parse
    ErrorMarker,
    /// `return` / `return e`
    RetExpr(Option<Box<Expr>>),
    /// `yield` / `yield e`: the surface suspension; also the lowered plain
    /// suspension of a synchronous body
    YieldExpr(Option<Box<Expr>>),
    /// `e.await`: the surface awaitlike suspension
    AwaitExpr(Box<Expr>),
    /// `e?`: the surface try-unwrap
    TryExpr(Box<Expr>),
    /// lowered `yield e` in an asynchronous body: suspend with "ready(e)"
    YieldReady(Box<Expr>),
    /// lowered `e.await`: poll in a loop, suspending "pending" until ready
    AwaitPoll(Box<Expr>),
    /// lowered `e?` in a synchronous try-yielding body: on failure, yield
    /// the converted failure once, then terminate
    TrySync(Box<Expr>),
    /// lowered `e?` in an asynchronous try-yielding body: on failure, yield
    /// "ready(converted failure)" once, then terminate
    TryAsync(Box<Expr>),
    /// lowered `e?` in a synchronous non-try body: on failure terminate at
    /// once, discarding the failure
    TryBareSync(Box<Expr>),
    /// lowered `e?` in an asynchronous non-try body
    TryBareAsync(Box<Expr>),
    /// the never-evaluated value in the synthetic tail suspension
    PanicExpr,
}

/// A comma-separated expression sequence.
pub enum ExprList {
    Nil,
    Cons(Expr, Box<ExprList>),
}

/// One statement.
pub enum Stmt {
    /// `let x = e;` / `let mut x = e;`
    LetBind { is_mut: bool, name: Name, init: Expr },
    /// `let Some(x) = e else { return; };` — on `None` the body terminates
    LetSomeElse { is_mut: bool, name: Name, source: Expr },
    /// `e;`
    ExprStmt(Expr),
    /// `x = e;`
    Assign { place: Place, value: Expr },
    /// `if e { .. } else { .. }`
    IfElse { cond: Expr, then_body: Box<StmtList>, else_body: Box<StmtList> },
    /// `for v in lo..hi { .. }` / `for v in lo..=hi { .. }`
    ForRange { var: Name, lo: Expr, hi: Expr, inclusive: bool, body: Box<StmtList> },
    /// `for v in place { .. }`: iterate a list held in a place
    ForIter { var: Name, iter: Place, body: Box<StmtList> },
    /// `while let Some(v) = e { .. }`
    WhileSome { var: Name, source: Expr, body: Box<StmtList> },
    /// `#[attr] name ! { .. }`: a macro invocation in statement position,
    /// with its annotations
    MacStmt { attrs: AttrList, name: Name, arg: MacArg },
}

/// What a macro invocation holds: a body that parsed in the statement
/// grammar, or the raw tokens of one that did not (kept verbatim, so that a
/// later pass can surface the error without losing the input).
pub enum MacArg {
    Parsed(Box<StmtList>),
    Raw(TokList),
}

/// An ordered statement sequence: a body.
pub enum StmtList {
    Nil,
    Cons(Stmt, Box<StmtList>),
}

/// `a` followed by `b`.
pub open spec fn stmt_append(a: StmtList, b: StmtList) -> StmtList
    decreases a,
{
    match a {
        StmtList::Nil => b,
        StmtList::Cons(s, rest) => StmtList::Cons(s, Box::new(stmt_append(*rest, b))),
    }
}

/// Appends `b` to `a`.
pub fn stmt_append_exec(a: StmtList, b: StmtList) -> (r: StmtList)
    ensures
        r == stmt_append(a, b),
    decreases a,
{
    match a {
        StmtList::Nil => b,
        StmtList::Cons(s, rest) => StmtList::Cons(s, Box::new(stmt_append_exec(*rest, b))),
    }
}

} // verus!
