//! The driver: an executable semantics for lowered generator bodies.
//!
//! The engine's output owns a suspendable computation; the host runtime
//! resumes it repeatedly and collects what it suspends with. The driver
//! plays that host: it runs a lowered body over an environment of plain
//! values and collects the suspended values in order. Fuel bounds only the
//! conditional loop backedges (`while let`): straight-line code, counted
//! ranges and list iteration never consume it.

use vstd::prelude::*;

use crate::expr::{Expr, ExprList, Place, Stmt, StmtList};
use crate::token::Name;

verus! {

/// A runtime value: the plain values generator bodies compute with.
pub enum Val {
    Unit,
    Int(i64),
    /// `Some(v)`
    VSome(Box<Val>),
    /// `None`
    VNone,
    /// `Ok(v)`
    VOk(Box<Val>),
    /// `Err(v)`
    VErr(Box<Val>),
    /// an iterator: the values not yet consumed
    VList(Box<ValList>),
    /// a future that is ready with a value
    VFut(Box<Val>),
    /// a truth value
    VBool(bool),
    /// an interval: start and end
    VPair(i64, i64),
}

/// A sequence of values.
pub enum ValList {
    Nil,
    Cons(Val, Box<ValList>),
}

/// One binding.
pub struct Binding {
    pub place: Place,
    pub val: Val,
}

/// The environment: newest binding first.
pub enum Env {
    Nil,
    Cons(Binding, Box<Env>),
}

/// The newest value bound to a place.
pub open spec fn lookup(env: Env, p: Place) -> Option<Val>
    decreases env,
{
    match env {
        Env::Nil => Option::None,
        Env::Cons(b, rest) => {
            if b.place == p {
                Option::Some(b.val)
            } else {
                lookup(*rest, p)
            }
        },
    }
}

/// The environment with the newest binding of `p` replaced by `v` (or `p`
/// freshly bound when it was absent).
pub open spec fn update(env: Env, p: Place, v: Val) -> Env
    decreases env,
{
    match env {
        Env::Nil => Env::Cons(Binding { place: p, val: v }, Box::new(Env::Nil)),
        Env::Cons(b, rest) => {
            if b.place == p {
                Env::Cons(Binding { place: p, val: v }, rest)
            } else {
                Env::Cons(b, Box::new(update(*rest, p, v)))
            }
        },
    }
}

/// The environment with a new binding of `p` shadowing any older one.
pub open spec fn bind(env: Env, p: Place, v: Val) -> Env {
    Env::Cons(Binding { place: p, val: v }, Box::new(env))
}

/// A deep copy of a value.
pub fn val_clone(v: &Val) -> (r: Val)
    ensures
        r == *v,
    decreases *v,
{
    match v {
        Val::Unit => Val::Unit,
        Val::Int(x) => Val::Int(*x),
        Val::VSome(b) => Val::VSome(Box::new(val_clone(b))),
        Val::VNone => Val::VNone,
        Val::VOk(b) => Val::VOk(Box::new(val_clone(b))),
        Val::VErr(b) => Val::VErr(Box::new(val_clone(b))),
        Val::VList(l) => Val::VList(Box::new(vallist_clone(l))),
        Val::VFut(b) => Val::VFut(Box::new(val_clone(b))),
        Val::VBool(x) => Val::VBool(*x),
        Val::VPair(a, b) => Val::VPair(*a, *b),
    }
}

/// A deep copy of a value sequence.
pub fn vallist_clone(l: &ValList) -> (r: ValList)
    ensures
        r == *l,
    decreases *l,
{
    match l {
        ValList::Nil => ValList::Nil,
        ValList::Cons(v, rest) => ValList::Cons(val_clone(v), Box::new(vallist_clone(rest))),
    }
}

/// Looks up the newest value bound to a place, copied out.
pub fn env_lookup(env: &Env, p: Place) -> (r: Option<Val>)
    ensures
        r == lookup(*env, p),
    decreases *env,
{
    match env {
        Env::Nil => Option::None,
        Env::Cons(b, rest) => {
            if b.place == p {
                Option::Some(val_clone(&b.val))
            } else {
                env_lookup(rest, p)
            }
        },
    }
}

/// Replaces the newest binding of a place.
pub fn env_update(env: Env, p: Place, v: Val) -> (r: Env)
    ensures
        r == update(env, p, v),
    decreases env,
{
    match env {
        Env::Nil => Env::Cons(Binding { place: p, val: v }, Box::new(Env::Nil)),
        Env::Cons(b, rest) => {
            if b.place == p {
                Env::Cons(Binding { place: p, val: v }, rest)
            } else {
                Env::Cons(b, Box::new(env_update(*rest, p, v)))
            }
        },
    }
}

/// Whether two values are equal.
pub fn val_eq(a: &Val, b: &Val) -> (r: bool)
    ensures
        r == (*a == *b),
    decreases *a,
{
    match (a, b) {
        (Val::Unit, Val::Unit) => true,
        (Val::Int(x), Val::Int(y)) => *x == *y,
        (Val::VSome(x), Val::VSome(y)) => val_eq(x, y),
        (Val::VNone, Val::VNone) => true,
        (Val::VOk(x), Val::VOk(y)) => val_eq(x, y),
        (Val::VErr(x), Val::VErr(y)) => val_eq(x, y),
        (Val::VList(x), Val::VList(y)) => vallist_eq(x, y),
        (Val::VFut(x), Val::VFut(y)) => val_eq(x, y),
        (Val::VBool(x), Val::VBool(y)) => *x == *y,
        (Val::VPair(a1, b1), Val::VPair(a2, b2)) => *a1 == *a2 && *b1 == *b2,
        _ => false,
    }
}

/// Whether two value sequences are equal.
pub fn vallist_eq(a: &ValList, b: &ValList) -> (r: bool)
    ensures
        r == (*a == *b),
    decreases *a,
{
    match (a, b) {
        (ValList::Nil, ValList::Nil) => true,
        (ValList::Cons(x, xs), ValList::Cons(y, ys)) => val_eq(x, y) && vallist_eq(xs, ys),
        _ => false,
    }
}

/// The outcome of evaluating one expression: a value and the environment
/// after any effects, or a failure (an unsupported shape, a missing
/// binding, a type mismatch, an overflow).
pub enum EvalOut {
    Good { v: Val, env: Env },
    Failed,
}

/// Evaluates one expression. Reads copy the bound value; `take` empties an
/// option slot; `next` pulls the head of a list slot; awaiting a ready
/// future produces its value. Control-flow forms are not values and fail
/// here; they are handled at statement level.
pub open spec fn eval_expr(e: Expr, env: Env) -> EvalOut
    decreases e,
{
    match e {
        Expr::Unit => EvalOut::Good { v: Val::Unit, env },
        Expr::IntLit(x) => EvalOut::Good { v: Val::Int(x), env },
        Expr::Read(p) => match lookup(env, p) {
            Option::Some(v) => EvalOut::Good { v, env },
            Option::None => EvalOut::Failed,
        },
        Expr::NegOf(b) => match eval_expr(*b, env) {
            EvalOut::Good { v: Val::Int(x), env: env2 } => {
                if x == i64::MIN {
                    EvalOut::Failed
                } else {
                    EvalOut::Good { v: Val::Int((-x) as i64), env: env2 }
                }
            },
            _ => EvalOut::Failed,
        },
        Expr::SomeOf(b) => match eval_expr(*b, env) {
            EvalOut::Good { v, env: env2 } => EvalOut::Good {
                v: Val::VSome(Box::new(v)),
                env: env2,
            },
            _ => EvalOut::Failed,
        },
        Expr::NoneLit => EvalOut::Good { v: Val::VNone, env },
        Expr::OkOf(b) => match eval_expr(*b, env) {
            EvalOut::Good { v, env: env2 } => EvalOut::Good {
                v: Val::VOk(Box::new(v)),
                env: env2,
            },
            _ => EvalOut::Failed,
        },
        Expr::ErrOf(b) => match eval_expr(*b, env) {
            EvalOut::Good { v, env: env2 } => EvalOut::Good {
                v: Val::VErr(Box::new(v)),
                env: env2,
            },
            _ => EvalOut::Failed,
        },
        Expr::ReadyOf(b) => match eval_expr(*b, env) {
            EvalOut::Good { v, env: env2 } => EvalOut::Good {
                v: Val::VFut(Box::new(v)),
                env: env2,
            },
            _ => EvalOut::Failed,
        },
        Expr::ListLit(l) => match eval_list(*l, env) {
            ListOut::Good { vs, env: env2 } => EvalOut::Good {
                v: Val::VList(Box::new(vs)),
                env: env2,
            },
            ListOut::Failed => EvalOut::Failed,
        },
        Expr::TakeOf(p) => match lookup(env, p) {
            Option::Some(Val::VSome(inner)) => EvalOut::Good {
                v: Val::VSome(inner),
                env: update(env, p, Val::VNone),
            },
            Option::Some(Val::VNone) => EvalOut::Good { v: Val::VNone, env },
            _ => EvalOut::Failed,
        },
        Expr::NextOf(p) => match lookup(env, p) {
            Option::Some(Val::VList(items)) => match *items {
                ValList::Nil => EvalOut::Good { v: Val::VNone, env },
                ValList::Cons(h, t) => EvalOut::Good {
                    v: Val::VSome(Box::new(h)),
                    env: update(env, p, Val::VList(t)),
                },
            },
            _ => EvalOut::Failed,
        },
        Expr::AwaitPoll(b) => match eval_expr(*b, env) {
            EvalOut::Good { v: Val::VFut(inner), env: env2 } => EvalOut::Good {
                v: *inner,
                env: env2,
            },
            _ => EvalOut::Failed,
        },
        Expr::OverlapsOf { recv, arg } => match eval_expr(*recv, env) {
            EvalOut::Good { v: Val::VPair(s1, e1), env: env1 } => match eval_expr(*arg, env1) {
                EvalOut::Good { v: Val::VPair(s2, e2), env: env2 } => EvalOut::Good {
                    v: Val::VBool(pair_overlaps(s1, e1, s2, e2)),
                    env: env2,
                },
                _ => EvalOut::Failed,
            },
            _ => EvalOut::Failed,
        },
        Expr::MergeOf { recv, arg } => match eval_expr(*recv, env) {
            EvalOut::Good { v: Val::VPair(s1, e1), env: env1 } => match eval_expr(*arg, env1) {
                EvalOut::Good { v: Val::VPair(s2, e2), env: env2 } => EvalOut::Good {
                    v: Val::VPair(
                        if s1 <= s2 {
                            s1
                        } else {
                            s2
                        },
                        if e1 >= e2 {
                            e1
                        } else {
                            e2
                        },
                    ),
                    env: env2,
                },
                _ => EvalOut::Failed,
            },
            _ => EvalOut::Failed,
        },
        _ => EvalOut::Failed,
    }
}

/// Whether the interval (s1, e1) touches the interval (s2, e2): the one
/// starting earlier reaches the start of the other.
pub open spec fn pair_overlaps(s1: i64, e1: i64, s2: i64, e2: i64) -> bool {
    if s1 < s2 {
        e1 >= s2
    } else {
        e2 >= s1
    }
}

/// The outcome of evaluating an expression sequence.
pub enum ListOut {
    Good { vs: ValList, env: Env },
    Failed,
}

/// Evaluates an expression sequence left to right, threading effects.
pub open spec fn eval_list(l: ExprList, env: Env) -> ListOut
    decreases l,
{
    match l {
        ExprList::Nil => ListOut::Good { vs: ValList::Nil, env },
        ExprList::Cons(e, rest) => match eval_expr(e, env) {
            EvalOut::Good { v, env: env2 } => match eval_list(*rest, env2) {
                ListOut::Good { vs, env: env3 } => ListOut::Good {
                    vs: ValList::Cons(v, Box::new(vs)),
                    env: env3,
                },
                ListOut::Failed => ListOut::Failed,
            },
            EvalOut::Failed => ListOut::Failed,
        },
    }
}

/// Evaluates one expression (executable form).
pub fn eval_expr_exec(e: &Expr, env: Env) -> (r: EvalOut)
    ensures
        r == eval_expr(*e, env),
    decreases *e,
{
    match e {
        Expr::Unit => EvalOut::Good { v: Val::Unit, env },
        Expr::IntLit(x) => EvalOut::Good { v: Val::Int(*x), env },
        Expr::Read(p) => match env_lookup(&env, *p) {
            Option::Some(v) => EvalOut::Good { v, env },
            Option::None => EvalOut::Failed,
        },
        Expr::NegOf(b) => match eval_expr_exec(b, env) {
            EvalOut::Good { v: Val::Int(x), env: env2 } => {
                if x == i64::MIN {
                    EvalOut::Failed
                } else {
                    EvalOut::Good { v: Val::Int(-x), env: env2 }
                }
            },
            _ => EvalOut::Failed,
        },
        Expr::SomeOf(b) => match eval_expr_exec(b, env) {
            EvalOut::Good { v, env: env2 } => EvalOut::Good {
                v: Val::VSome(Box::new(v)),
                env: env2,
            },
            _ => EvalOut::Failed,
        },
        Expr::NoneLit => EvalOut::Good { v: Val::VNone, env },
        Expr::OkOf(b) => match eval_expr_exec(b, env) {
            EvalOut::Good { v, env: env2 } => EvalOut::Good {
                v: Val::VOk(Box::new(v)),
                env: env2,
            },
            _ => EvalOut::Failed,
        },
        Expr::ErrOf(b) => match eval_expr_exec(b, env) {
            EvalOut::Good { v, env: env2 } => EvalOut::Good {
                v: Val::VErr(Box::new(v)),
                env: env2,
            },
            _ => EvalOut::Failed,
        },
        Expr::ReadyOf(b) => match eval_expr_exec(b, env) {
            EvalOut::Good { v, env: env2 } => EvalOut::Good {
                v: Val::VFut(Box::new(v)),
                env: env2,
            },
            _ => EvalOut::Failed,
        },
        Expr::ListLit(l) => match eval_list_exec(l, env) {
            ListOut::Good { vs, env: env2 } => EvalOut::Good {
                v: Val::VList(Box::new(vs)),
                env: env2,
            },
            ListOut::Failed => EvalOut::Failed,
        },
        Expr::TakeOf(p) => match env_lookup(&env, *p) {
            Option::Some(Val::VSome(inner)) => EvalOut::Good {
                v: Val::VSome(inner),
                env: env_update(env, *p, Val::VNone),
            },
            Option::Some(Val::VNone) => EvalOut::Good { v: Val::VNone, env },
            _ => EvalOut::Failed,
        },
        Expr::NextOf(p) => match env_lookup(&env, *p) {
            Option::Some(Val::VList(items)) => match *items {
                ValList::Nil => EvalOut::Good { v: Val::VNone, env },
                ValList::Cons(h, t) => EvalOut::Good {
                    v: Val::VSome(Box::new(h)),
                    env: env_update(env, *p, Val::VList(t)),
                },
            },
            _ => EvalOut::Failed,
        },
        Expr::AwaitPoll(b) => match eval_expr_exec(b, env) {
            EvalOut::Good { v: Val::VFut(inner), env: env2 } => EvalOut::Good {
                v: *inner,
                env: env2,
            },
            _ => EvalOut::Failed,
        },
        Expr::OverlapsOf { recv, arg } => match eval_expr_exec(recv, env) {
            EvalOut::Good { v: Val::VPair(s1, e1), env: env1 } => match eval_expr_exec(arg, env1) {
                EvalOut::Good { v: Val::VPair(s2, e2), env: env2 } => {
                    let touches = if s1 < s2 {
                        e1 >= s2
                    } else {
                        e2 >= s1
                    };
                    EvalOut::Good { v: Val::VBool(touches), env: env2 }
                },
                _ => EvalOut::Failed,
            },
            _ => EvalOut::Failed,
        },
        Expr::MergeOf { recv, arg } => match eval_expr_exec(recv, env) {
            EvalOut::Good { v: Val::VPair(s1, e1), env: env1 } => match eval_expr_exec(arg, env1) {
                EvalOut::Good { v: Val::VPair(s2, e2), env: env2 } => EvalOut::Good {
                    v: Val::VPair(
                        if s1 <= s2 {
                            s1
                        } else {
                            s2
                        },
                        if e1 >= e2 {
                            e1
                        } else {
                            e2
                        },
                    ),
                    env: env2,
                },
                _ => EvalOut::Failed,
            },
            _ => EvalOut::Failed,
        },
        _ => EvalOut::Failed,
    }
}

/// Evaluates an expression sequence (executable form).
pub fn eval_list_exec(l: &ExprList, env: Env) -> (r: ListOut)
    ensures
        r == eval_list(*l, env),
    decreases *l,
{
    match l {
        ExprList::Nil => ListOut::Good { vs: ValList::Nil, env },
        ExprList::Cons(e, rest) => match eval_expr_exec(e, env) {
            EvalOut::Good { v, env: env2 } => match eval_list_exec(rest, env2) {
                ListOut::Good { vs, env: env3 } => ListOut::Good {
                    vs: ValList::Cons(v, Box::new(vs)),
                    env: env3,
                },
                ListOut::Failed => ListOut::Failed,
            },
            EvalOut::Failed => ListOut::Failed,
        },
    }
}

/// The outcome of running statements: the environment and the suspended
/// values in order, with `stopped` meaning a terminator ran (the body is
/// finished even if statements remain); or a failure (an unsupported shape
/// or exhausted fuel).
pub enum RunRes {
    Done { env: Env, out: Seq<Val>, stopped: bool },
    Failed,
}

/// The outcome of a statement's right-hand side: a value, or a halt (a
/// try-unwrap hit its failure case: whatever it suspended is in `out`, and
/// the body terminates).
pub enum RhsOut {
    Value { v: Val, env: Env },
    Halted { env: Env, out: Seq<Val> },
    Failed,
}

/// Evaluates a right-hand side. The four lowered try forms branch on the
/// try-discriminant of their argument: on the success case they produce the
/// wrapped value; on the failure case the try-yielding forms suspend once
/// with the failure converted back into the yield type (`Err(e)` stays
/// `Err(e)`, `None` stays `None`) and halt, while the bare forms halt at
/// once, discarding the failure.
pub open spec fn eval_rhs(e: Expr, env: Env) -> RhsOut {
    match e {
        Expr::TrySync(b) => try_yield_branch(eval_expr(*b, env)),
        Expr::TryAsync(b) => try_yield_branch(eval_expr(*b, env)),
        Expr::TryBareSync(b) => try_bare_branch(eval_expr(*b, env)),
        Expr::TryBareAsync(b) => try_bare_branch(eval_expr(*b, env)),
        _ => match eval_expr(e, env) {
            EvalOut::Good { v, env: env2 } => RhsOut::Value { v, env: env2 },
            EvalOut::Failed => RhsOut::Failed,
        },
    }
}

/// The try-yielding branch on an evaluated discriminant.
pub open spec fn try_yield_branch(r: EvalOut) -> RhsOut {
    match r {
        EvalOut::Good { v: Val::VOk(x), env } => RhsOut::Value { v: *x, env },
        EvalOut::Good { v: Val::VSome(x), env } => RhsOut::Value { v: *x, env },
        EvalOut::Good { v: Val::VErr(x), env } => RhsOut::Halted {
            env,
            out: seq![Val::VErr(x)],
        },
        EvalOut::Good { v: Val::VNone, env } => RhsOut::Halted { env, out: seq![Val::VNone] },
        _ => RhsOut::Failed,
    }
}

/// The bare try branch on an evaluated discriminant.
pub open spec fn try_bare_branch(r: EvalOut) -> RhsOut {
    match r {
        EvalOut::Good { v: Val::VOk(x), env } => RhsOut::Value { v: *x, env },
        EvalOut::Good { v: Val::VSome(x), env } => RhsOut::Value { v: *x, env },
        EvalOut::Good { v: Val::VErr(x), env } => RhsOut::Halted { env, out: Seq::empty() },
        EvalOut::Good { v: Val::VNone, env } => RhsOut::Halted { env, out: Seq::empty() },
        _ => RhsOut::Failed,
    }
}

/// How many iterations a counted range makes.
pub open spec fn range_count(a: int, b: int, inclusive: bool) -> int {
    if inclusive {
        if a <= b {
            b - a + 1
        } else {
            0
        }
    } else {
        if a < b {
            b - a
        } else {
            0
        }
    }
}

/// The number of values in a sequence.
pub open spec fn vallist_len(l: ValList) -> nat
    decreases l,
{
    match l {
        ValList::Nil => 0,
        ValList::Cons(_, rest) => 1 + vallist_len(*rest),
    }
}

/// Runs one statement.
pub open spec fn run_stmt(s: Stmt, env: Env, fuel: nat) -> RunRes
    decreases fuel, s, 2int,
{
    match s {
        Stmt::LetBind { is_mut, name, init } => match eval_rhs(init, env) {
            RhsOut::Value { v, env: env2 } => RunRes::Done {
                env: bind(env2, Place::Var(name), v),
                out: Seq::empty(),
                stopped: false,
            },
            RhsOut::Halted { env: env2, out } => RunRes::Done { env: env2, out, stopped: true },
            RhsOut::Failed => RunRes::Failed,
        },
        Stmt::LetSomeElse { is_mut, name, source } => match eval_expr(source, env) {
            EvalOut::Good { v: Val::VSome(x), env: env2 } => RunRes::Done {
                env: bind(env2, Place::Var(name), *x),
                out: Seq::empty(),
                stopped: false,
            },
            EvalOut::Good { v: Val::VNone, env: env2 } => RunRes::Done {
                env: env2,
                out: Seq::empty(),
                stopped: true,
            },
            _ => RunRes::Failed,
        },
        Stmt::Assign { place, value } => match eval_expr(value, env) {
            EvalOut::Good { v, env: env2 } => RunRes::Done {
                env: update(env2, place, v),
                out: Seq::empty(),
                stopped: false,
            },
            EvalOut::Failed => RunRes::Failed,
        },
        Stmt::IfElse { cond, then_body, else_body } => match eval_expr(cond, env) {
            EvalOut::Good { v: Val::VBool(c), env: env2 } => {
                if c {
                    run_stmts(*then_body, env2, fuel)
                } else {
                    run_stmts(*else_body, env2, fuel)
                }
            },
            _ => RunRes::Failed,
        },
        Stmt::ExprStmt(e) => match e {
            Expr::YieldExpr(inner) => match inner {
                Option::Some(b) => match eval_expr(*b, env) {
                    EvalOut::Good { v, env: env2 } => RunRes::Done {
                        env: env2,
                        out: seq![v],
                        stopped: false,
                    },
                    EvalOut::Failed => RunRes::Failed,
                },
                Option::None => RunRes::Done { env, out: seq![Val::Unit], stopped: false },
            },
            Expr::YieldReady(b) => match eval_expr(*b, env) {
                EvalOut::Good { v, env: env2 } => RunRes::Done {
                    env: env2,
                    out: seq![v],
                    stopped: false,
                },
                EvalOut::Failed => RunRes::Failed,
            },
            Expr::RetExpr(inner) => match inner {
                Option::None => RunRes::Done { env, out: Seq::empty(), stopped: true },
                Option::Some(_) => RunRes::Failed,
            },
            _ => match eval_rhs(e, env) {
                RhsOut::Value { v, env: env2 } => RunRes::Done {
                    env: env2,
                    out: Seq::empty(),
                    stopped: false,
                },
                RhsOut::Halted { env: env2, out } => RunRes::Done {
                    env: env2,
                    out,
                    stopped: true,
                },
                RhsOut::Failed => RunRes::Failed,
            },
        },
        Stmt::ForRange { var, lo, hi, inclusive, body } => match eval_expr(lo, env) {
            EvalOut::Good { v: Val::Int(a), env: env1 } => match eval_expr(hi, env1) {
                EvalOut::Good { v: Val::Int(b), env: env2 } => run_range(
                    var,
                    a,
                    b,
                    inclusive,
                    *body,
                    env2,
                    fuel,
                ),
                _ => RunRes::Failed,
            },
            _ => RunRes::Failed,
        },
        Stmt::ForIter { var, iter, body } => match lookup(env, iter) {
            Option::Some(Val::VList(items)) => run_list_iter(var, *items, *body, env, fuel),
            _ => RunRes::Failed,
        },
        Stmt::WhileSome { var, source, body } => run_while(var, source, *body, env, fuel),
        Stmt::MacStmt { attrs, name, arg } => RunRes::Failed,
    }
}

/// Runs a counted range loop.
pub open spec fn run_range(
    var: Name,
    a: i64,
    b: i64,
    inclusive: bool,
    body: StmtList,
    env: Env,
    fuel: nat,
) -> RunRes
    decreases fuel, body, 3 + range_count(a as int, b as int, inclusive),
{
    let more = if inclusive {
        a <= b
    } else {
        a < b
    };
    if !more {
        RunRes::Done { env, out: Seq::empty(), stopped: false }
    } else {
        match run_stmts(body, bind(env, Place::Var(var), Val::Int(a)), fuel) {
            RunRes::Done { env: env2, out: out1, stopped: true } => RunRes::Done {
                env: env2,
                out: out1,
                stopped: true,
            },
            RunRes::Done { env: env2, out: out1, stopped: false } => {
                if inclusive && a == b {
                    RunRes::Done { env: env2, out: out1, stopped: false }
                } else {
                    match run_range(var, (a + 1) as i64, b, inclusive, body, env2, fuel) {
                        RunRes::Done { env: env3, out: out2, stopped } => RunRes::Done {
                            env: env3,
                            out: out1 + out2,
                            stopped,
                        },
                        RunRes::Failed => RunRes::Failed,
                    }
                }
            },
            RunRes::Failed => RunRes::Failed,
        }
    }
}

/// Runs a loop over the values of a list.
pub open spec fn run_list_iter(
    var: Name,
    items: ValList,
    body: StmtList,
    env: Env,
    fuel: nat,
) -> RunRes
    decreases fuel, body, 3 + vallist_len(items),
{
    match items {
        ValList::Nil => RunRes::Done { env, out: Seq::empty(), stopped: false },
        ValList::Cons(h, t) => match run_stmts(body, bind(env, Place::Var(var), h), fuel) {
            RunRes::Done { env: env2, out: out1, stopped: true } => RunRes::Done {
                env: env2,
                out: out1,
                stopped: true,
            },
            RunRes::Done { env: env2, out: out1, stopped: false } => {
                match run_list_iter(var, *t, body, env2, fuel) {
                    RunRes::Done { env: env3, out: out2, stopped } => RunRes::Done {
                        env: env3,
                        out: out1 + out2,
                        stopped,
                    },
                    RunRes::Failed => RunRes::Failed,
                }
            },
            RunRes::Failed => RunRes::Failed,
        },
    }
}

/// Runs a conditional loop; each backedge consumes one unit of fuel.
pub open spec fn run_while(
    var: Name,
    source: Expr,
    body: StmtList,
    env: Env,
    fuel: nat,
) -> RunRes
    decreases fuel, body, 3int,
{
    if fuel == 0 {
        RunRes::Failed
    } else {
        match eval_expr(source, env) {
            EvalOut::Good { v: Val::VNone, env: env2 } => RunRes::Done {
                env: env2,
                out: Seq::empty(),
                stopped: false,
            },
            EvalOut::Good { v: Val::VSome(x), env: env2 } => {
                match run_stmts(body, bind(env2, Place::Var(var), *x), fuel) {
                    RunRes::Done { env: env3, out: out1, stopped: true } => RunRes::Done {
                        env: env3,
                        out: out1,
                        stopped: true,
                    },
                    RunRes::Done { env: env3, out: out1, stopped: false } => {
                        match run_while(var, source, body, env3, (fuel - 1) as nat) {
                            RunRes::Done { env: env4, out: out2, stopped } => RunRes::Done {
                                env: env4,
                                out: out1 + out2,
                                stopped,
                            },
                            RunRes::Failed => RunRes::Failed,
                        }
                    },
                    RunRes::Failed => RunRes::Failed,
                }
            },
            _ => RunRes::Failed,
        }
    }
}

/// Runs a statement sequence until it falls through, terminates, or fails.
pub open spec fn run_stmts(b: StmtList, env: Env, fuel: nat) -> RunRes
    decreases fuel, b, 1int,
{
    match b {
        StmtList::Nil => RunRes::Done { env, out: Seq::empty(), stopped: false },
        StmtList::Cons(s, rest) => match run_stmt(s, env, fuel) {
            RunRes::Done { env: env1, out: out1, stopped: true } => RunRes::Done {
                env: env1,
                out: out1,
                stopped: true,
            },
            RunRes::Done { env: env1, out: out1, stopped: false } => {
                match run_stmts(*rest, env1, fuel) {
                    RunRes::Done { env: env2, out: out2, stopped } => RunRes::Done {
                        env: env2,
                        out: out1 + out2,
                        stopped,
                    },
                    RunRes::Failed => RunRes::Failed,
                }
            },
            RunRes::Failed => RunRes::Failed,
        },
    }
}

/// The executable outcome of running statements; the suspended values are
/// appended to the caller's vector.
pub enum ExecFlow {
    /// fell through to whatever follows
    Next(Env),
    /// a terminator ran: the body is finished
    Stopped(Env),
    Failed,
}

/// The executable outcome of a right-hand side.
enum RhsFlow {
    Value { v: Val, env: Env },
    Halted { env: Env },
    Failed,
}

/// Evaluates a right-hand side, appending whatever a failing try-unwrap
/// suspends.
fn eval_rhs_exec(e: &Expr, env: Env, out: &mut Vec<Val>) -> (r: RhsFlow)
    ensures
        match eval_rhs(*e, env) {
            RhsOut::Value { v, env: env2 } => r == (RhsFlow::Value { v, env: env2 })
                && final(out)@ == old(out)@,
            RhsOut::Halted { env: env2, out: o } => r == (RhsFlow::Halted { env: env2 })
                && final(out)@ == old(out)@ + o,
            RhsOut::Failed => r == RhsFlow::Failed && final(out)@ == old(out)@,
        },
{
    let is_try_yield = match e {
        Expr::TrySync(_) => true,
        Expr::TryAsync(_) => true,
        _ => false,
    };
    let is_try_bare = match e {
        Expr::TryBareSync(_) => true,
        Expr::TryBareAsync(_) => true,
        _ => false,
    };
    if is_try_yield || is_try_bare {
        let inner = match e {
            Expr::TrySync(b) => &**b,
            Expr::TryAsync(b) => &**b,
            Expr::TryBareSync(b) => &**b,
            Expr::TryBareAsync(b) => &**b,
            _ => e,
        };
        match eval_expr_exec(inner, env) {
            EvalOut::Good { v: Val::VOk(x), env: env2 } => RhsFlow::Value { v: *x, env: env2 },
            EvalOut::Good { v: Val::VSome(x), env: env2 } => RhsFlow::Value { v: *x, env: env2 },
            EvalOut::Good { v: Val::VErr(x), env: env2 } => {
                if is_try_yield {
                    out.push(Val::VErr(x));
                    proof {
                        assert(final(out)@ =~= old(out)@ + seq![Val::VErr(x)]);
                    }
                } else {
                    proof {
                        assert(final(out)@ =~= old(out)@ + Seq::<Val>::empty());
                    }
                }
                RhsFlow::Halted { env: env2 }
            },
            EvalOut::Good { v: Val::VNone, env: env2 } => {
                if is_try_yield {
                    out.push(Val::VNone);
                    proof {
                        assert(final(out)@ =~= old(out)@ + seq![Val::VNone]);
                    }
                } else {
                    proof {
                        assert(final(out)@ =~= old(out)@ + Seq::<Val>::empty());
                    }
                }
                RhsFlow::Halted { env: env2 }
            },
            _ => RhsFlow::Failed,
        }
    } else {
        match eval_expr_exec(e, env) {
            EvalOut::Good { v, env: env2 } => RhsFlow::Value { v, env: env2 },
            EvalOut::Failed => RhsFlow::Failed,
        }
    }
}

/// Runs one statement (executable form).
fn run_stmt_exec(s: &Stmt, env: Env, out: &mut Vec<Val>, fuel: u64) -> (r: ExecFlow)
    ensures
        match run_stmt(*s, env, fuel as nat) {
            RunRes::Done { env: e2, out: o2, stopped } => r == (if stopped {
                ExecFlow::Stopped(e2)
            } else {
                ExecFlow::Next(e2)
            }) && final(out)@ == old(out)@ + o2,
            RunRes::Failed => r == ExecFlow::Failed,
        },
    decreases fuel, *s, 2int,
{
    match s {
        Stmt::LetBind { is_mut, name, init } => match eval_rhs_exec(init, env, out) {
            RhsFlow::Value { v, env: env2 } => {
                proof {
                    assert(final(out)@ =~= old(out)@ + Seq::<Val>::empty());
                }
                ExecFlow::Next(
                    Env::Cons(Binding { place: Place::Var(*name), val: v }, Box::new(env2)),
                )
            },
            RhsFlow::Halted { env: env2 } => ExecFlow::Stopped(env2),
            RhsFlow::Failed => ExecFlow::Failed,
        },
        Stmt::LetSomeElse { is_mut, name, source } => match eval_expr_exec(source, env) {
            EvalOut::Good { v: Val::VSome(x), env: env2 } => {
                proof {
                    assert(final(out)@ =~= old(out)@ + Seq::<Val>::empty());
                }
                ExecFlow::Next(
                    Env::Cons(Binding { place: Place::Var(*name), val: *x }, Box::new(env2)),
                )
            },
            EvalOut::Good { v: Val::VNone, env: env2 } => {
                proof {
                    assert(final(out)@ =~= old(out)@ + Seq::<Val>::empty());
                }
                ExecFlow::Stopped(env2)
            },
            _ => ExecFlow::Failed,
        },
        Stmt::Assign { place, value } => match eval_expr_exec(value, env) {
            EvalOut::Good { v, env: env2 } => {
                proof {
                    assert(final(out)@ =~= old(out)@ + Seq::<Val>::empty());
                }
                ExecFlow::Next(env_update(env2, *place, v))
            },
            EvalOut::Failed => ExecFlow::Failed,
        },
        Stmt::IfElse { cond, then_body, else_body } => match eval_expr_exec(cond, env) {
            EvalOut::Good { v: Val::VBool(c), env: env2 } => {
                if c {
                    run_stmts_exec(then_body, env2, out, fuel)
                } else {
                    run_stmts_exec(else_body, env2, out, fuel)
                }
            },
            _ => ExecFlow::Failed,
        },
        Stmt::ExprStmt(e) => match e {
            Expr::YieldExpr(inner) => match inner {
                Option::Some(b) => match eval_expr_exec(&**b, env) {
                    EvalOut::Good { v, env: env2 } => {
                        out.push(v);
                        proof {
                            assert(final(out)@ =~= old(out)@ + seq![v]);
                        }
                        ExecFlow::Next(env2)
                    },
                    EvalOut::Failed => ExecFlow::Failed,
                },
                Option::None => {
                    out.push(Val::Unit);
                    proof {
                        assert(final(out)@ =~= old(out)@ + seq![Val::Unit]);
                    }
                    ExecFlow::Next(env)
                },
            },
            Expr::YieldReady(b) => match eval_expr_exec(&**b, env) {
                EvalOut::Good { v, env: env2 } => {
                    out.push(v);
                    proof {
                        assert(final(out)@ =~= old(out)@ + seq![v]);
                    }
                    ExecFlow::Next(env2)
                },
                EvalOut::Failed => ExecFlow::Failed,
            },
            Expr::RetExpr(inner) => match inner {
                Option::None => {
                    proof {
                        assert(final(out)@ =~= old(out)@ + Seq::<Val>::empty());
                    }
                    ExecFlow::Stopped(env)
                },
                Option::Some(_) => ExecFlow::Failed,
            },
            _ => match eval_rhs_exec(e, env, out) {
                RhsFlow::Value { v, env: env2 } => {
                    proof {
                        assert(final(out)@ =~= old(out)@ + Seq::<Val>::empty());
                    }
                    ExecFlow::Next(env2)
                },
                RhsFlow::Halted { env: env2 } => ExecFlow::Stopped(env2),
                RhsFlow::Failed => ExecFlow::Failed,
            },
        },
        Stmt::ForRange { var, lo, hi, inclusive, body } => match eval_expr_exec(lo, env) {
            EvalOut::Good { v: Val::Int(a), env: env1 } => match eval_expr_exec(hi, env1) {
                EvalOut::Good { v: Val::Int(b), env: env2 } => run_range_exec(
                    *var,
                    a,
                    b,
                    *inclusive,
                    body,
                    env2,
                    out,
                    fuel,
                ),
                _ => ExecFlow::Failed,
            },
            _ => ExecFlow::Failed,
        },
        Stmt::ForIter { var, iter, body } => match env_lookup(&env, *iter) {
            Option::Some(Val::VList(items)) => run_list_exec(*var, *items, body, env, out, fuel),
            _ => ExecFlow::Failed,
        },
        Stmt::WhileSome { var, source, body } => run_while_exec(*var, source, body, env, out, fuel),
        Stmt::MacStmt { attrs, name, arg } => ExecFlow::Failed,
    }
}

/// Runs a counted range loop (executable form).
fn run_range_exec(
    var: Name,
    a: i64,
    b: i64,
    inclusive: bool,
    body: &StmtList,
    env: Env,
    out: &mut Vec<Val>,
    fuel: u64,
) -> (r: ExecFlow)
    ensures
        match run_range(var, a, b, inclusive, *body, env, fuel as nat) {
            RunRes::Done { env: e2, out: o2, stopped } => r == (if stopped {
                ExecFlow::Stopped(e2)
            } else {
                ExecFlow::Next(e2)
            }) && final(out)@ == old(out)@ + o2,
            RunRes::Failed => r == ExecFlow::Failed,
        },
    decreases fuel, *body, 3 + range_count(a as int, b as int, inclusive),
{
    let more = if inclusive {
        a <= b
    } else {
        a < b
    };
    if !more {
        proof {
            assert(final(out)@ =~= old(out)@ + Seq::<Val>::empty());
        }
        ExecFlow::Next(env)
    } else {
        let env_in = Env::Cons(
            Binding { place: Place::Var(var), val: Val::Int(a) },
            Box::new(env),
        );
        match run_stmts_exec(body, env_in, out, fuel) {
            ExecFlow::Stopped(env2) => ExecFlow::Stopped(env2),
            ExecFlow::Next(env2) => {
                if inclusive && a == b {
                    ExecFlow::Next(env2)
                } else {
                    let r = run_range_exec(var, a + 1, b, inclusive, body, env2, out, fuel);
                    proof {
                        let spec_first = run_stmts(
                            *body,
                            bind(env, Place::Var(var), Val::Int(a)),
                            fuel as nat,
                        );
                        let spec_rest = run_range(
                            var,
                            (a + 1) as i64,
                            b,
                            inclusive,
                            *body,
                            spec_first->Done_env,
                            fuel as nat,
                        );
                        if spec_rest is Done {
                            assert(final(out)@ =~= old(out)@ + (spec_first->Done_out
                                + spec_rest->Done_out));
                        }
                    }
                    r
                }
            },
            ExecFlow::Failed => ExecFlow::Failed,
        }
    }
}

/// Runs a loop over the values of a list (executable form).
fn run_list_exec(
    var: Name,
    items: ValList,
    body: &StmtList,
    env: Env,
    out: &mut Vec<Val>,
    fuel: u64,
) -> (r: ExecFlow)
    ensures
        match run_list_iter(var, items, *body, env, fuel as nat) {
            RunRes::Done { env: e2, out: o2, stopped } => r == (if stopped {
                ExecFlow::Stopped(e2)
            } else {
                ExecFlow::Next(e2)
            }) && final(out)@ == old(out)@ + o2,
            RunRes::Failed => r == ExecFlow::Failed,
        },
    decreases fuel, *body, 3 + vallist_len(items),
{
    match items {
        ValList::Nil => {
            proof {
                assert(final(out)@ =~= old(out)@ + Seq::<Val>::empty());
            }
            ExecFlow::Next(env)
        },
        ValList::Cons(h, t) => {
            let ghost spec_first = run_stmts(*body, bind(env, Place::Var(var), h), fuel as nat);
            let env_in = Env::Cons(Binding { place: Place::Var(var), val: h }, Box::new(env));
            match run_stmts_exec(body, env_in, out, fuel) {
                ExecFlow::Stopped(env2) => ExecFlow::Stopped(env2),
                ExecFlow::Next(env2) => {
                    let r = run_list_exec(var, *t, body, env2, out, fuel);
                    proof {
                        let spec_rest = run_list_iter(
                            var,
                            *t,
                            *body,
                            spec_first->Done_env,
                            fuel as nat,
                        );
                        if spec_rest is Done {
                            assert(final(out)@ =~= old(out)@ + (spec_first->Done_out
                                + spec_rest->Done_out));
                        }
                    }
                    r
                },
                ExecFlow::Failed => ExecFlow::Failed,
            }
        },
    }
}

/// Runs a conditional loop (executable form).
fn run_while_exec(
    var: Name,
    source: &Expr,
    body: &StmtList,
    env: Env,
    out: &mut Vec<Val>,
    fuel: u64,
) -> (r: ExecFlow)
    ensures
        match run_while(var, *source, *body, env, fuel as nat) {
            RunRes::Done { env: e2, out: o2, stopped } => r == (if stopped {
                ExecFlow::Stopped(e2)
            } else {
                ExecFlow::Next(e2)
            }) && final(out)@ == old(out)@ + o2,
            RunRes::Failed => r == ExecFlow::Failed,
        },
    decreases fuel, *body, 3int,
{
    if fuel == 0 {
        ExecFlow::Failed
    } else {
        match eval_expr_exec(source, env) {
            EvalOut::Good { v: Val::VNone, env: env2 } => {
                proof {
                    assert(final(out)@ =~= old(out)@ + Seq::<Val>::empty());
                }
                ExecFlow::Next(env2)
            },
            EvalOut::Good { v: Val::VSome(x), env: env2 } => {
                let ghost spec_first = run_stmts(
                    *body,
                    bind(env2, Place::Var(var), *x),
                    fuel as nat,
                );
                let env_in = Env::Cons(Binding { place: Place::Var(var), val: *x }, Box::new(env2));
                match run_stmts_exec(body, env_in, out, fuel) {
                    ExecFlow::Stopped(env3) => ExecFlow::Stopped(env3),
                    ExecFlow::Next(env3) => {
                        let r = run_while_exec(var, source, body, env3, out, fuel - 1);
                        proof {
                            let spec_rest = run_while(
                                var,
                                *source,
                                *body,
                                spec_first->Done_env,
                                (fuel - 1) as nat,
                            );
                            if spec_rest is Done {
                                assert(final(out)@ =~= old(out)@ + (spec_first->Done_out
                                    + spec_rest->Done_out));
                            }
                        }
                        r
                    },
                    ExecFlow::Failed => ExecFlow::Failed,
                }
            },
            _ => ExecFlow::Failed,
        }
    }
}

/// Runs a statement sequence (executable form), appending every suspended
/// value to `out` in order.
pub fn run_stmts_exec(b: &StmtList, env: Env, out: &mut Vec<Val>, fuel: u64) -> (r: ExecFlow)
    ensures
        match run_stmts(*b, env, fuel as nat) {
            RunRes::Done { env: e2, out: o2, stopped } => r == (if stopped {
                ExecFlow::Stopped(e2)
            } else {
                ExecFlow::Next(e2)
            }) && final(out)@ == old(out)@ + o2,
            RunRes::Failed => r == ExecFlow::Failed,
        },
    decreases fuel, *b, 1int,
{
    match b {
        StmtList::Nil => {
            proof {
                assert(final(out)@ =~= old(out)@ + Seq::<Val>::empty());
            }
            ExecFlow::Next(env)
        },
        StmtList::Cons(s, rest) => {
            let ghost spec_first = run_stmt(*s, env, fuel as nat);
            match run_stmt_exec(s, env, out, fuel) {
                ExecFlow::Stopped(env1) => ExecFlow::Stopped(env1),
                ExecFlow::Next(env1) => {
                    let r = run_stmts_exec(rest, env1, out, fuel);
                    proof {
                        let spec_rest = run_stmts(**rest, spec_first->Done_env, fuel as nat);
                        if spec_rest is Done {
                            assert(final(out)@ =~= old(out)@ + (spec_first->Done_out
                                + spec_rest->Done_out));
                        }
                    }
                    r
                },
                ExecFlow::Failed => ExecFlow::Failed,
            }
        },
    }
}

} // verus!


