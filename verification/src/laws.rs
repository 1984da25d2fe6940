//! The library's laws: what holds of every expansion, proved once and for
//! all over the specification functions that the executable code is proved
//! to implement.

use vstd::prelude::*;

use crate::assemble::{build_spec, decl_mode, tail_stmts};
use crate::ast::{Decl, Mode};
use crate::diag::{Diag, DiagKind, DiagLevel};
use crate::driver::{Env, RunRes, Val, bind, run_stmt, run_stmts};
use crate::expr::{Expr, Place, Stmt, StmtList, stmt_append};
use crate::item::hint_value;
use crate::rewrite::{expr_diags, lower_expr, lower_stmt, lower_stmts, stmt_diags, stmts_diags};
use crate::token::{Name, TokList};

verus! {

/// Running the synthetic tail terminates at once: no value is produced and
/// the suspension after the terminator is never reached.
pub proof fn lemma_tail_terminates(env: Env, fuel: nat)
    ensures
        run_stmts(tail_stmts(), env, fuel) == (RunRes::Done {
            env,
            out: Seq::<Val>::empty(),
            stopped: true,
        }),
{
    reveal_with_fuel(run_stmts, 2);
    reveal_with_fuel(run_stmt, 2);
}

/// A declaration with an empty body expands successfully — with no
/// diagnostics — and the produced sequence is immediately exhausted: driving
/// it, under any environment and any fuel, terminates with zero elements.
pub proof fn lemma_empty_body_exhausts(d: Decl, env: Env, fuel: nat)
    requires
        d.body == StmtList::Nil,
    ensures
        run_stmts(build_spec(d).producer.body, env, fuel) == (RunRes::Done {
            env,
            out: Seq::<Val>::empty(),
            stopped: true,
        }),
        stmts_diags(d.body, decl_mode(d)) == Seq::<Diag>::empty(),
{
    assert(lower_stmts(d.body, decl_mode(d)) == StmtList::Nil);
    assert(build_spec(d).producer.body == tail_stmts());
    lemma_tail_terminates(env, fuel);
}

/// Straight-line code whose statements all suspend with integer literals.
pub open spec fn all_yield_ints(b: StmtList) -> bool
    decreases b,
{
    match b {
        StmtList::Nil => true,
        StmtList::Cons(s, rest) => (match s {
            Stmt::ExprStmt(Expr::YieldExpr(inner)) => match inner {
                Option::Some(e) => *e is IntLit,
                Option::None => false,
            },
            _ => false,
        }) && all_yield_ints(*rest),
    }
}

/// The values such a body suspends with, in source order.
pub open spec fn yielded_ints(b: StmtList) -> Seq<Val>
    decreases b,
{
    match b {
        StmtList::Nil => Seq::empty(),
        StmtList::Cons(s, rest) => (match s {
            Stmt::ExprStmt(Expr::YieldExpr(Option::Some(e))) => match *e {
                Expr::IntLit(v) => seq![Val::Int(v)] + yielded_ints(*rest),
                _ => yielded_ints(*rest),
            },
            _ => yielded_ints(*rest),
        }),
    }
}

/// A body of N unconditional suspensions in straight-line code, rewritten
/// under any mode and driven under any environment and any fuel, produces
/// exactly its N values, in source order, before exhaustion.
pub proof fn lemma_straight_line_yields(b: StmtList, m: Mode, env: Env, fuel: nat)
    requires
        all_yield_ints(b),
    ensures
        run_stmts(stmt_append(lower_stmts(b, m), tail_stmts()), env, fuel) == (RunRes::Done {
            env,
            out: yielded_ints(b),
            stopped: true,
        }),
    decreases b,
{
    match b {
        StmtList::Nil => {
            lemma_tail_terminates(env, fuel);
        },
        StmtList::Cons(s, rest) => {
            lemma_straight_line_yields(*rest, m, env, fuel);
            match s {
                Stmt::ExprStmt(Expr::YieldExpr(Option::Some(e))) => {
                    match *e {
                        Expr::IntLit(v) => {
                            let ls = lower_stmt(s, m);
                            assert(ls == Stmt::ExprStmt(
                                if m.is_async {
                                    Expr::YieldReady(Box::new(Expr::IntLit(v)))
                                } else {
                                    Expr::YieldExpr(Option::Some(Box::new(Expr::IntLit(v))))
                                },
                            )) by {
                                reveal_with_fuel(lower_expr, 3);
                            }
                            assert(run_stmt(ls, env, fuel) == (RunRes::Done {
                                env,
                                out: seq![Val::Int(v)],
                                stopped: false,
                            })) by {
                                reveal_with_fuel(run_stmt, 2);
                                reveal_with_fuel(crate::driver::eval_expr, 2);
                            }
                            assert(stmt_append(lower_stmts(b, m), tail_stmts())
                                == StmtList::Cons(
                                ls,
                                Box::new(stmt_append(lower_stmts(*rest, m), tail_stmts())),
                            )) by {
                                reveal_with_fuel(lower_stmts, 2);
                                reveal_with_fuel(stmt_append, 2);
                            }
                            assert(run_stmts(
                                stmt_append(lower_stmts(b, m), tail_stmts()),
                                env,
                                fuel,
                            ) matches RunRes::Done { env: e2, out, stopped }) by {
                                reveal_with_fuel(run_stmts, 2);
                            }
                            assert(seq![Val::Int(v)] + yielded_ints(*rest) =~= yielded_ints(b));
                            assert(run_stmts(
                                stmt_append(lower_stmts(b, m), tail_stmts()),
                                env,
                                fuel,
                            ) == (RunRes::Done { env, out: yielded_ints(b), stopped: true })) by {
                                reveal_with_fuel(run_stmts, 2);
                            }
                        },
                        _ => {},
                    }
                },
                _ => {},
            }
        },
    }
}

/// A declaration whose body is straight-line unconditional suspensions
/// expands to a producer that yields exactly those values: the end-to-end
/// form of the statement above.
pub proof fn lemma_straight_line_expansion(d: Decl, env: Env, fuel: nat)
    requires
        all_yield_ints(d.body),
    ensures
        run_stmts(build_spec(d).producer.body, env, fuel) == (RunRes::Done {
            env,
            out: yielded_ints(d.body),
            stopped: true,
        }),
{
    lemma_straight_line_yields(d.body, decl_mode(d), env, fuel);
}

/// The integers of `lo .. hi`, as driven values, in order.
pub open spec fn range_vals(lo: i64, hi: i64) -> Seq<Val>
    decreases hi - lo,
{
    if lo >= hi {
        Seq::empty()
    } else {
        seq![Val::Int(lo)] + range_vals((lo + 1) as i64, hi)
    }
}

/// The loop body that suspends its counter, in either mode's lowered form.
pub open spec fn counting_body(var: Name, is_async: bool) -> StmtList {
    StmtList::Cons(
        Stmt::ExprStmt(
            if is_async {
                Expr::YieldReady(Box::new(Expr::Read(Place::Var(var))))
            } else {
                Expr::YieldExpr(Option::Some(Box::new(Expr::Read(Place::Var(var)))))
            },
        ),
        Box::new(StmtList::Nil),
    )
}

/// A counted loop over a body that suspends its counter yields exactly the
/// integers of the range, in order, without consuming fuel.
pub proof fn lemma_range_loop_yields(var: Name, lo: i64, hi: i64, is_async: bool, env: Env, fuel: nat)
    ensures
        crate::driver::run_range(var, lo, hi, false, counting_body(var, is_async), env, fuel)
            matches RunRes::Done { env: e2, out, stopped } && out == range_vals(lo, hi)
            && !stopped,
    decreases
            (if hi - lo >= 0 {
                hi - lo
            } else {
                0
            }),
{
    reveal_with_fuel(crate::driver::run_range, 2);
    reveal_with_fuel(run_stmts, 2);
    reveal_with_fuel(run_stmt, 2);
    reveal_with_fuel(crate::driver::eval_expr, 2);
    reveal_with_fuel(crate::driver::lookup, 2);
    reveal_with_fuel(range_vals, 2);
    if lo < hi {
        let benv = bind(env, Place::Var(var), Val::Int(lo));
        assert(crate::driver::lookup(benv, Place::Var(var)) == Option::Some(Val::Int(lo)));
        assert(run_stmts(counting_body(var, is_async), benv, fuel) == (RunRes::Done {
            env: benv,
            out: seq![Val::Int(lo)] + Seq::<Val>::empty(),
            stopped: false,
        }));
        lemma_range_loop_yields(var, (lo + 1) as i64, hi, is_async, benv, fuel);
        let tail = crate::driver::run_range(
            var,
            (lo + 1) as i64,
            hi,
            false,
            counting_body(var, is_async),
            benv,
            fuel,
        );
        assert((seq![Val::Int(lo)] + Seq::<Val>::empty()) + tail->Done_out =~= range_vals(lo, hi));
    }
}

/// A declaration whose whole body is `for v in lo..hi { yield v; }`
/// expands to a producer that yields exactly the integers lo, lo+1, ...,
/// hi-1 before exhaustion, in either mode — the general shape behind the
/// end-to-end counting scenario.
#[verifier::rlimit(100)]
pub proof fn lemma_counting_expansion(d: Decl, var: Name, lo: i64, hi: i64, env: Env, fuel: nat)
    requires
        d.body == StmtList::Cons(
            Stmt::ForRange {
                var,
                lo: Expr::IntLit(lo),
                hi: Expr::IntLit(hi),
                inclusive: false,
                body: Box::new(
                    StmtList::Cons(
                        Stmt::ExprStmt(
                            Expr::YieldExpr(Option::Some(Box::new(Expr::Read(Place::Var(var))))),
                        ),
                        Box::new(StmtList::Nil),
                    ),
                ),
            },
            Box::new(StmtList::Nil),
        ),
    ensures
        run_stmts(build_spec(d).producer.body, env, fuel) matches RunRes::Done {
            env: e2,
            out,
            stopped,
        } && out == range_vals(lo, hi) && stopped,
{
    let m = decl_mode(d);
    reveal_with_fuel(crate::rewrite::lower_stmts, 3);
    reveal_with_fuel(lower_expr, 3);
    reveal_with_fuel(crate::expr::stmt_append, 3);
    assert(lower_stmt(d.body->Cons_0, m) == Stmt::ForRange {
        var,
        lo: Expr::IntLit(lo),
        hi: Expr::IntLit(hi),
        inclusive: false,
        body: Box::new(counting_body(var, m.is_async)),
    }) by {
        reveal_with_fuel(lower_stmt, 3);
        reveal_with_fuel(crate::rewrite::lower_stmts, 3);
        reveal_with_fuel(lower_expr, 3);
    }
    assert(build_spec(d).producer.body == StmtList::Cons(
        Stmt::ForRange {
            var,
            lo: Expr::IntLit(lo),
            hi: Expr::IntLit(hi),
            inclusive: false,
            body: Box::new(counting_body(var, m.is_async)),
        },
        Box::new(tail_stmts()),
    ));
    lemma_range_loop_yields(var, lo, hi, m.is_async, env, fuel);
    let loop_res = crate::driver::run_range(
        var,
        lo,
        hi,
        false,
        counting_body(var, m.is_async),
        env,
        fuel,
    );
    lemma_tail_terminates(loop_res->Done_env, fuel);
    assert(run_stmts(build_spec(d).producer.body, env, fuel) matches RunRes::Done {
        env: e2,
        out,
        stopped,
    } && out == range_vals(lo, hi) && stopped) by {
        reveal_with_fuel(run_stmts, 2);
        reveal_with_fuel(run_stmt, 2);
        reveal_with_fuel(crate::driver::eval_expr, 2);
        assert(range_vals(lo, hi) + Seq::<Val>::empty() =~= range_vals(lo, hi));
    }
}

/// The values of a list, in order.
pub open spec fn vals_of(l: crate::driver::ValList) -> Seq<Val>
    decreases l,
{
    match l {
        crate::driver::ValList::Nil => Seq::empty(),
        crate::driver::ValList::Cons(v, rest) => seq![v] + vals_of(*rest),
    }
}

/// A loop over the values of a list, with a body that suspends its loop
/// variable, yields exactly the list's values in order, without consuming
/// fuel.
pub proof fn lemma_list_loop_yields(
    var: Name,
    items: crate::driver::ValList,
    is_async: bool,
    env: Env,
    fuel: nat,
)
    ensures
        crate::driver::run_list_iter(var, items, counting_body(var, is_async), env, fuel)
            matches RunRes::Done { env: e2, out, stopped } && out == vals_of(items) && !stopped,
    decreases items,
{
    reveal_with_fuel(crate::driver::run_list_iter, 2);
    reveal_with_fuel(run_stmts, 2);
    reveal_with_fuel(run_stmt, 2);
    reveal_with_fuel(crate::driver::eval_expr, 2);
    reveal_with_fuel(crate::driver::lookup, 2);
    reveal_with_fuel(vals_of, 2);
    match items {
        crate::driver::ValList::Nil => {},
        crate::driver::ValList::Cons(h, t) => {
            let benv = bind(env, Place::Var(var), h);
            assert(crate::driver::lookup(benv, Place::Var(var)) == Option::Some(h));
            assert(run_stmts(counting_body(var, is_async), benv, fuel) == (RunRes::Done {
                env: benv,
                out: seq![h] + Seq::<Val>::empty(),
                stopped: false,
            }));
            lemma_list_loop_yields(var, *t, is_async, benv, fuel);
            let tail = crate::driver::run_list_iter(
                var,
                *t,
                counting_body(var, is_async),
                benv,
                fuel,
            );
            assert((seq![h] + Seq::<Val>::empty()) + tail->Done_out =~= vals_of(items));
        },
    }
}

/// The two-suspension try scenario: a value is taken from a one-value slot
/// and suspended; a second take fails the try-unwrap.
pub open spec fn try_scenario_body(x: Name, y: Name) -> StmtList {
    StmtList::Cons(
        Stmt::LetBind {
            is_mut: false,
            name: y,
            init: Expr::TryExpr(Box::new(Expr::TakeOf(Place::Var(x)))),
        },
        Box::new(
            StmtList::Cons(
                Stmt::ExprStmt(Expr::YieldExpr(Option::Some(Box::new(Expr::Read(Place::Var(y)))))),
                Box::new(
                    StmtList::Cons(
                        Stmt::LetBind {
                            is_mut: false,
                            name: y,
                            init: Expr::TryExpr(Box::new(Expr::TakeOf(Place::Var(x)))),
                        },
                        Box::new(
                            StmtList::Cons(
                                Stmt::ExprStmt(
                                    Expr::YieldExpr(
                                        Option::Some(Box::new(Expr::Read(Place::Var(y)))),
                                    ),
                                ),
                                Box::new(StmtList::Nil),
                            ),
                        ),
                    ),
                ),
            ),
        ),
    )
}

/// The try-unwrap policy, for all four mode combinations at once: with the
/// slot holding exactly one value, the lowered scenario body suspends that
/// value, and the second, failing try-unwrap terminates the body — after
/// suspending the converted failure (`None`) once when the mode yields
/// tries, and immediately, discarding it, when it does not. In no mode is
/// the suspension after the failure reached.
pub proof fn lemma_try_policy(x: Name, y: Name, m: Mode, fuel: nat)
    requires
        x != y,
    ensures
        run_stmts(
            stmt_append(lower_stmts(try_scenario_body(x, y), m), tail_stmts()),
            bind(Env::Nil, Place::Var(x), Val::VSome(Box::new(Val::Int(3)))),
            fuel,
        ) matches RunRes::Done { env, out, stopped } && stopped && out == (if m.is_try_yield {
            seq![Val::Int(3), Val::VNone]
        } else {
            seq![Val::Int(3)]
        }),
{
    let env0 = bind(Env::Nil, Place::Var(x), Val::VSome(Box::new(Val::Int(3))));
    let take_x = Expr::TakeOf(Place::Var(x));
    let try_lowered = lower_expr(Expr::TryExpr(Box::new(take_x)), m);
    let yield_y = Stmt::ExprStmt(Expr::YieldExpr(Option::Some(Box::new(Expr::Read(Place::Var(y))))));
    let ls1 = Stmt::LetBind { is_mut: false, name: y, init: try_lowered };
    let ls2 = lower_stmt(yield_y, m);
    let lowered = stmt_append(lower_stmts(try_scenario_body(x, y), m), tail_stmts());
    assert(lowered == StmtList::Cons(
        ls1,
        Box::new(
            StmtList::Cons(
                ls2,
                Box::new(
                    StmtList::Cons(
                        ls1,
                        Box::new(StmtList::Cons(ls2, Box::new(tail_stmts()))),
                    ),
                ),
            ),
        ),
    )) by {
        reveal_with_fuel(lower_stmts, 5);
        reveal_with_fuel(stmt_append, 5);
    }
    // first take: the slot gives up its one value, which is bound to y
    let env1 = crate::driver::update(env0, Place::Var(x), Val::VNone);
    let env2 = bind(env1, Place::Var(y), Val::Int(3));
    assert(env1 == Env::Cons(
        crate::driver::Binding { place: Place::Var(x), val: Val::VNone },
        Box::new(Env::Nil),
    )) by {
        reveal_with_fuel(crate::driver::update, 2);
    }
    assert(run_stmt(ls1, env0, fuel) == (RunRes::Done {
        env: env2,
        out: Seq::<Val>::empty(),
        stopped: false,
    })) by {
        reveal_with_fuel(run_stmt, 2);
        reveal_with_fuel(lower_expr, 3);
        reveal_with_fuel(crate::driver::eval_expr, 3);
        reveal_with_fuel(crate::driver::lookup, 2);
        reveal_with_fuel(crate::driver::update, 2);
    }
    // the suspension hands out the bound value
    assert(run_stmt(ls2, env2, fuel) == (RunRes::Done {
        env: env2,
        out: seq![Val::Int(3)],
        stopped: false,
    })) by {
        reveal_with_fuel(run_stmt, 2);
        reveal_with_fuel(lower_expr, 3);
        reveal_with_fuel(crate::driver::eval_expr, 3);
        reveal_with_fuel(crate::driver::lookup, 2);
    }
    // second take: the slot is empty; the try-unwrap terminates the body,
    // yielding the converted failure first exactly when the mode says so
    assert(run_stmt(ls1, env2, fuel) == (RunRes::Done {
        env: env2,
        out: if m.is_try_yield {
            seq![Val::VNone]
        } else {
            Seq::<Val>::empty()
        },
        stopped: true,
    })) by {
        reveal_with_fuel(run_stmt, 2);
        reveal_with_fuel(lower_expr, 3);
        reveal_with_fuel(crate::driver::eval_expr, 3);
        reveal_with_fuel(crate::driver::lookup, 3);
    }
    assert(run_stmts(lowered, env0, fuel) matches RunRes::Done { env, out, stopped } && stopped
        && out == (if m.is_try_yield {
        seq![Val::Int(3), Val::VNone]
    } else {
        seq![Val::Int(3)]
    })) by {
        reveal_with_fuel(run_stmts, 4);
        if m.is_try_yield {
            assert(Seq::<Val>::empty() + (seq![Val::Int(3)] + seq![Val::VNone]) =~= seq![
                Val::Int(3),
                Val::VNone,
            ]);
        } else {
            assert(Seq::<Val>::empty() + (seq![Val::Int(3)] + Seq::<Val>::empty()) =~= seq![
                Val::Int(3),
            ]);
        }
    }
}

/// Whether a body contains, anywhere, a `return` carrying a value.
pub open spec fn expr_has_value_return(e: Expr) -> bool
    decreases e,
{
    match e {
        Expr::RetExpr(inner) => inner is Some,
        Expr::YieldExpr(inner) => match inner {
            Option::Some(b) => expr_has_value_return(*b),
            Option::None => false,
        },
        Expr::AwaitExpr(b) => expr_has_value_return(*b),
        Expr::TryExpr(b) => expr_has_value_return(*b),
        Expr::NegOf(b) => expr_has_value_return(*b),
        Expr::SomeOf(b) => expr_has_value_return(*b),
        Expr::OkOf(b) => expr_has_value_return(*b),
        Expr::ErrOf(b) => expr_has_value_return(*b),
        Expr::ReadyOf(b) => expr_has_value_return(*b),
        Expr::CallOpaque { method, recv, arg } => expr_has_value_return(*recv) || (match arg {
            Option::Some(a) => expr_has_value_return(*a),
            Option::None => false,
        }),
        _ => false,
    }
}

/// Whether any statement of a body holds a `return` carrying a value, at
/// the top level of its expressions.
pub open spec fn body_has_value_return(b: StmtList) -> bool
    decreases b,
{
    match b {
        StmtList::Nil => false,
        StmtList::Cons(s, rest) => (match s {
            Stmt::LetBind { is_mut, name, init } => expr_has_value_return(init),
            Stmt::LetSomeElse { is_mut, name, source } => expr_has_value_return(source),
            Stmt::ExprStmt(e) => expr_has_value_return(e),
            Stmt::Assign { place, value } => expr_has_value_return(value),
            Stmt::IfElse { cond, then_body, else_body } => expr_has_value_return(cond)
                || body_has_value_return(*then_body) || body_has_value_return(*else_body),
            Stmt::ForRange { var, lo, hi, inclusive, body } => body_has_value_return(*body),
            Stmt::ForIter { var, iter, body } => body_has_value_return(*body),
            Stmt::WhileSome { var, source, body } => body_has_value_return(*body),
            Stmt::MacStmt { attrs, name, arg } => false,
        }) || body_has_value_return(*rest),
    }
}

/// The diagnostic a value-carrying `return` earns.
pub open spec fn return_diag() -> Diag {
    Diag { level: DiagLevel::Error, kind: DiagKind::ReturnWithValue }
}

proof fn lemma_expr_return_diagnosed(e: Expr, m: Mode)
    requires
        expr_has_value_return(e),
    ensures
        expr_diags(e, m).contains(return_diag()),
    decreases e,
{
    match e {
        Expr::RetExpr(inner) => {
            match inner {
                Option::Some(b) => {
                    assert(expr_diags(e, m)[expr_diags(*b, m).len() as int] == return_diag());
                },
                Option::None => {},
            }
        },
        Expr::YieldExpr(inner) => {
            match inner {
                Option::Some(b) => {
                    lemma_expr_return_diagnosed(*b, m);
                },
                Option::None => {},
            }
        },
        Expr::AwaitExpr(b) => lemma_expr_return_diagnosed(*b, m),
        Expr::TryExpr(b) => lemma_expr_return_diagnosed(*b, m),
        Expr::NegOf(b) => lemma_expr_return_diagnosed(*b, m),
        Expr::SomeOf(b) => lemma_expr_return_diagnosed(*b, m),
        Expr::OkOf(b) => lemma_expr_return_diagnosed(*b, m),
        Expr::ErrOf(b) => lemma_expr_return_diagnosed(*b, m),
        Expr::ReadyOf(b) => lemma_expr_return_diagnosed(*b, m),
        Expr::CallOpaque { method, recv, arg } => {
            if expr_has_value_return(*recv) {
                lemma_expr_return_diagnosed(*recv, m);
                let i = choose|i: int|
                    0 <= i < expr_diags(*recv, m).len() && expr_diags(*recv, m)[i]
                        == return_diag();
                assert(expr_diags(e, m)[i] == return_diag());
            } else {
                match arg {
                    Option::Some(a) => {
                        lemma_expr_return_diagnosed(*a, m);
                        let i = choose|i: int|
                            0 <= i < expr_diags(*a, m).len() && expr_diags(*a, m)[i]
                                == return_diag();
                        assert(expr_diags(e, m)[expr_diags(*recv, m).len() + i] == return_diag());
                    },
                    Option::None => {},
                }
            }
        },
        _ => {},
    }
}

/// A `return` carrying a value, anywhere in a body, always earns the
/// error-level diagnostic — while the rewrite itself still succeeds, the
/// value is dropped, and the lowered body remains a valid producer (its
/// rewritten form is exactly [`lower_stmts`], which is total).
pub proof fn lemma_value_return_diagnosed(b: StmtList, m: Mode)
    requires
        body_has_value_return(b),
    ensures
        stmts_diags(b, m).contains(return_diag()),
    decreases b,
{
    match b {
        StmtList::Nil => {},
        StmtList::Cons(s, rest) => {
            let own = match s {
                Stmt::LetBind { is_mut, name, init } => expr_has_value_return(init),
                Stmt::LetSomeElse { is_mut, name, source } => expr_has_value_return(source),
                Stmt::ExprStmt(e) => expr_has_value_return(e),
                Stmt::Assign { place, value } => expr_has_value_return(value),
                Stmt::IfElse { cond, then_body, else_body } => expr_has_value_return(cond)
                    || body_has_value_return(*then_body) || body_has_value_return(*else_body),
                Stmt::ForRange { var, lo, hi, inclusive, body } => body_has_value_return(*body),
                Stmt::ForIter { var, iter, body } => body_has_value_return(*body),
                Stmt::WhileSome { var, source, body } => body_has_value_return(*body),
                Stmt::MacStmt { attrs, name, arg } => false,
            };
            if own {
                match s {
                    Stmt::LetBind { is_mut, name, init } => {
                        lemma_expr_return_diagnosed(init, m);
                    },
                    Stmt::LetSomeElse { is_mut, name, source } => {
                        lemma_expr_return_diagnosed(source, m);
                    },
                    Stmt::ExprStmt(e) => {
                        lemma_expr_return_diagnosed(e, m);
                    },
                    Stmt::Assign { place, value } => {
                        lemma_expr_return_diagnosed(value, m);
                    },
                    Stmt::IfElse { cond, then_body, else_body } => {
                        if expr_has_value_return(cond) {
                            lemma_expr_return_diagnosed(cond, m);
                            let i = choose|i: int|
                                0 <= i < expr_diags(cond, m).len() && expr_diags(cond, m)[i]
                                    == return_diag();
                            assert(stmt_diags(s, m)[i] == return_diag());
                        } else if body_has_value_return(*then_body) {
                            lemma_value_return_diagnosed(*then_body, m);
                            let i = choose|i: int|
                                0 <= i < stmts_diags(*then_body, m).len() && stmts_diags(
                                    *then_body,
                                    m,
                                )[i] == return_diag();
                            assert(stmt_diags(s, m)[expr_diags(cond, m).len() + i]
                                == return_diag());
                        } else {
                            lemma_value_return_diagnosed(*else_body, m);
                            let i = choose|i: int|
                                0 <= i < stmts_diags(*else_body, m).len() && stmts_diags(
                                    *else_body,
                                    m,
                                )[i] == return_diag();
                            assert(stmt_diags(s, m)[expr_diags(cond, m).len() + stmts_diags(
                                *then_body,
                                m,
                            ).len() + i] == return_diag());
                        }
                    },
                    Stmt::ForRange { var, lo, hi, inclusive, body } => {
                        lemma_value_return_diagnosed(*body, m);
                        let i = choose|i: int|
                            0 <= i < stmts_diags(*body, m).len() && stmts_diags(*body, m)[i]
                                == return_diag();
                        assert(stmt_diags(s, m)[expr_diags(lo, m).len() + expr_diags(hi, m).len()
                            + i] == return_diag());
                    },
                    Stmt::ForIter { var, iter, body } => {
                        lemma_value_return_diagnosed(*body, m);
                    },
                    Stmt::WhileSome { var, source, body } => {
                        lemma_value_return_diagnosed(*body, m);
                        let i = choose|i: int|
                            0 <= i < stmts_diags(*body, m).len() && stmts_diags(*body, m)[i]
                                == return_diag();
                        assert(stmt_diags(s, m)[expr_diags(source, m).len() + i] == return_diag());
                    },
                    Stmt::MacStmt { attrs, name, arg } => {},
                }
                let i = choose|i: int|
                    0 <= i < stmt_diags(s, m).len() && stmt_diags(s, m)[i] == return_diag();
                assert(stmts_diags(b, m)[i] == return_diag());
            } else {
                lemma_value_return_diagnosed(*rest, m);
                let i = choose|i: int|
                    0 <= i < stmts_diags(*rest, m).len() && stmts_diags(*rest, m)[i]
                        == return_diag();
                assert(stmts_diags(b, m)[stmt_diags(s, m).len() + i] == return_diag());
            }
        },
    }
}

/// Absent a size-hint annotation, the reported hint is (zero, no upper
/// bound), whatever the environment.
pub proof fn lemma_hint_default(env: Env)
    ensures
        hint_value(Option::None, env) == Option::Some((0usize, Option::<usize>::None)),
{
}

/// The captured argument tokens of a size-hint annotation supplying a
/// literal pair: `((a, None))` or `((a, Some(b)))`.
pub open spec fn literal_hint_tokens(a: u64, b: Option<u64>) -> TokList {
    let pair = TokList::Cons(
        crate::token::Tok::LitInt(a),
        Box::new(
            TokList::Cons(
                crate::token::Tok::Punct(crate::token::Punct::Comma),
                Box::new(
                    match b {
                        Option::None => TokList::Cons(
                            crate::token::Tok::Ident(Name::CtorNone),
                            Box::new(TokList::Nil),
                        ),
                        Option::Some(bv) => TokList::Cons(
                            crate::token::Tok::Ident(Name::CtorSome),
                            Box::new(
                                TokList::Cons(
                                    crate::token::Tok::Group(
                                        crate::token::Delim::Paren,
                                        Box::new(
                                            TokList::Cons(
                                                crate::token::Tok::LitInt(bv),
                                                Box::new(TokList::Nil),
                                            ),
                                        ),
                                    ),
                                    Box::new(TokList::Nil),
                                ),
                            ),
                        ),
                    },
                ),
            ),
        ),
    );
    TokList::Cons(
        crate::token::Tok::Group(
            crate::token::Delim::Paren,
            Box::new(
                TokList::Cons(
                    crate::token::Tok::Group(crate::token::Delim::Paren, Box::new(pair)),
                    Box::new(TokList::Nil),
                ),
            ),
        ),
        Box::new(TokList::Nil),
    )
}

/// With an override annotation supplying a literal pair, the reported hint
/// is exactly that pair, whatever the environment.
pub proof fn lemma_hint_override(a: u64, b: Option<u64>, env: Env)
    requires
        a <= usize::MAX as u64,
        b matches Some(bv) ==> bv <= usize::MAX as u64,
    ensures
        hint_value(Option::Some(literal_hint_tokens(a, b)), env) == Option::Some(
            (
                a as usize,
                match b {
                    Option::Some(bv) => Option::Some(bv as usize),
                    Option::None => Option::<usize>::None,
                },
            ),
        ),
{
}

} // verus!
