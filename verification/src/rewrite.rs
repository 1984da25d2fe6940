//! The body rewriter: a bottom-up tree rewrite of a generator body,
//! replacing the surface control-flow constructs (early return, suspension,
//! awaitlike suspension, try-unwrap) by their explicit lowered forms.
//!
//! Children are fully rewritten before their parent is inspected, so a `?`
//! nested inside an `.await` (or vice versa) is handled at any depth. The
//! rewrite is purely syntactic and local; it is steered only by the two
//! immutable mode flags. No other expression shapes are modified.

use vstd::prelude::*;

use crate::ast::Mode;
use crate::diag::{Diag, DiagKind, DiagLevel};
use crate::expr::{Expr, ExprList, Stmt, StmtList};

verus! {

/// The rewritten form of one expression.
///
/// The defining equations follow the rewrite table: a `return` with a value
/// loses the value (and gains a diagnostic, see [`expr_diags`]); `yield` in
/// an asynchronous body suspends with a ready value; `.await` in an
/// asynchronous body becomes a polling loop; `?` becomes the try-branch
/// form selected by the mode pair. Everything else keeps its shape with its
/// children rewritten.
pub open spec fn lower_expr(e: Expr, m: Mode) -> Expr
    decreases e,
{
    match e {
        Expr::RetExpr(inner) => Expr::RetExpr(Option::None),
        Expr::YieldExpr(inner) => {
            if m.is_async {
                match inner {
                    Option::Some(b) => Expr::YieldReady(Box::new(lower_expr(*b, m))),
                    Option::None => Expr::YieldReady(Box::new(Expr::Unit)),
                }
            } else {
                match inner {
                    Option::Some(b) => Expr::YieldExpr(
                        Option::Some(Box::new(lower_expr(*b, m))),
                    ),
                    Option::None => Expr::YieldExpr(Option::None),
                }
            }
        },
        Expr::AwaitExpr(b) => {
            if m.is_async {
                Expr::AwaitPoll(Box::new(lower_expr(*b, m)))
            } else {
                Expr::AwaitExpr(Box::new(lower_expr(*b, m)))
            }
        },
        Expr::TryExpr(b) => {
            if m.is_async && m.is_try_yield {
                Expr::TryAsync(Box::new(lower_expr(*b, m)))
            } else if !m.is_async && m.is_try_yield {
                Expr::TrySync(Box::new(lower_expr(*b, m)))
            } else if m.is_async {
                Expr::TryBareAsync(Box::new(lower_expr(*b, m)))
            } else {
                Expr::TryBareSync(Box::new(lower_expr(*b, m)))
            }
        },
        Expr::OverlapsOf { recv, arg } => Expr::OverlapsOf {
            recv: Box::new(lower_expr(*recv, m)),
            arg: Box::new(lower_expr(*arg, m)),
        },
        Expr::MergeOf { recv, arg } => Expr::MergeOf {
            recv: Box::new(lower_expr(*recv, m)),
            arg: Box::new(lower_expr(*arg, m)),
        },
        Expr::NegOf(b) => Expr::NegOf(Box::new(lower_expr(*b, m))),
        Expr::SomeOf(b) => Expr::SomeOf(Box::new(lower_expr(*b, m))),
        Expr::OkOf(b) => Expr::OkOf(Box::new(lower_expr(*b, m))),
        Expr::ErrOf(b) => Expr::ErrOf(Box::new(lower_expr(*b, m))),
        Expr::ReadyOf(b) => Expr::ReadyOf(Box::new(lower_expr(*b, m))),
        Expr::ListLit(l) => Expr::ListLit(Box::new(lower_expr_list(*l, m))),
        Expr::CallOpaque { method, recv, arg } => Expr::CallOpaque {
            method,
            recv: Box::new(lower_expr(*recv, m)),
            arg: match arg {
                Option::Some(a) => Option::Some(Box::new(lower_expr(*a, m))),
                Option::None => Option::None,
            },
        },
        Expr::YieldReady(b) => Expr::YieldReady(Box::new(lower_expr(*b, m))),
        Expr::AwaitPoll(b) => Expr::AwaitPoll(Box::new(lower_expr(*b, m))),
        Expr::TrySync(b) => Expr::TrySync(Box::new(lower_expr(*b, m))),
        Expr::TryAsync(b) => Expr::TryAsync(Box::new(lower_expr(*b, m))),
        Expr::TryBareSync(b) => Expr::TryBareSync(Box::new(lower_expr(*b, m))),
        Expr::TryBareAsync(b) => Expr::TryBareAsync(Box::new(lower_expr(*b, m))),
        _ => e,
    }
}

/// The rewritten form of an expression sequence, element by element.
pub open spec fn lower_expr_list(l: ExprList, m: Mode) -> ExprList
    decreases l,
{
    match l {
        ExprList::Nil => ExprList::Nil,
        ExprList::Cons(e, rest) => ExprList::Cons(
            lower_expr(e, m),
            Box::new(lower_expr_list(*rest, m)),
        ),
    }
}

/// The diagnostics one expression's rewrite emits, in visit order: children
/// first, then the node's own diagnostic if any. Only a `return` carrying a
/// value diagnoses (an error saying a generator cannot return a non-empty
/// value, with help text; expansion still succeeds).
pub open spec fn expr_diags(e: Expr, m: Mode) -> Seq<Diag>
    decreases e,
{
    match e {
        Expr::RetExpr(inner) => match inner {
            Option::Some(b) => expr_diags(*b, m) + seq![
                Diag { level: DiagLevel::Error, kind: DiagKind::ReturnWithValue },
            ],
            Option::None => Seq::empty(),
        },
        Expr::YieldExpr(inner) => match inner {
            Option::Some(b) => expr_diags(*b, m),
            Option::None => Seq::empty(),
        },
        Expr::AwaitExpr(b) => expr_diags(*b, m),
        Expr::TryExpr(b) => expr_diags(*b, m),
        Expr::OverlapsOf { recv, arg } => expr_diags(*recv, m) + expr_diags(*arg, m),
        Expr::MergeOf { recv, arg } => expr_diags(*recv, m) + expr_diags(*arg, m),
        Expr::NegOf(b) => expr_diags(*b, m),
        Expr::SomeOf(b) => expr_diags(*b, m),
        Expr::OkOf(b) => expr_diags(*b, m),
        Expr::ErrOf(b) => expr_diags(*b, m),
        Expr::ReadyOf(b) => expr_diags(*b, m),
        Expr::ListLit(l) => expr_list_diags(*l, m),
        Expr::CallOpaque { method, recv, arg } => expr_diags(*recv, m) + (match arg {
            Option::Some(a) => expr_diags(*a, m),
            Option::None => Seq::empty(),
        }),
        Expr::YieldReady(b) => expr_diags(*b, m),
        Expr::AwaitPoll(b) => expr_diags(*b, m),
        Expr::TrySync(b) => expr_diags(*b, m),
        Expr::TryAsync(b) => expr_diags(*b, m),
        Expr::TryBareSync(b) => expr_diags(*b, m),
        Expr::TryBareAsync(b) => expr_diags(*b, m),
        _ => Seq::empty(),
    }
}

/// The diagnostics of an expression sequence, in order.
pub open spec fn expr_list_diags(l: ExprList, m: Mode) -> Seq<Diag>
    decreases l,
{
    match l {
        ExprList::Nil => Seq::empty(),
        ExprList::Cons(e, rest) => expr_diags(e, m) + expr_list_diags(*rest, m),
    }
}

/// The rewritten form of one statement: its expressions rewritten, nested
/// bodies rewritten recursively; macro invocations are left untouched.
pub open spec fn lower_stmt(s: Stmt, m: Mode) -> Stmt
    decreases s,
{
    match s {
        Stmt::LetBind { is_mut, name, init } => Stmt::LetBind {
            is_mut,
            name,
            init: lower_expr(init, m),
        },
        Stmt::LetSomeElse { is_mut, name, source } => Stmt::LetSomeElse {
            is_mut,
            name,
            source: lower_expr(source, m),
        },
        Stmt::ExprStmt(e) => Stmt::ExprStmt(lower_expr(e, m)),
        Stmt::Assign { place, value } => Stmt::Assign { place, value: lower_expr(value, m) },
        Stmt::IfElse { cond, then_body, else_body } => Stmt::IfElse {
            cond: lower_expr(cond, m),
            then_body: Box::new(lower_stmts(*then_body, m)),
            else_body: Box::new(lower_stmts(*else_body, m)),
        },
        Stmt::ForRange { var, lo, hi, inclusive, body } => Stmt::ForRange {
            var,
            lo: lower_expr(lo, m),
            hi: lower_expr(hi, m),
            inclusive,
            body: Box::new(lower_stmts(*body, m)),
        },
        Stmt::ForIter { var, iter, body } => Stmt::ForIter {
            var,
            iter,
            body: Box::new(lower_stmts(*body, m)),
        },
        Stmt::WhileSome { var, source, body } => Stmt::WhileSome {
            var,
            source: lower_expr(source, m),
            body: Box::new(lower_stmts(*body, m)),
        },
        Stmt::MacStmt { attrs, name, arg } => Stmt::MacStmt { attrs, name, arg },
    }
}

/// The rewritten form of a whole body.
pub open spec fn lower_stmts(b: StmtList, m: Mode) -> StmtList
    decreases b,
{
    match b {
        StmtList::Nil => StmtList::Nil,
        StmtList::Cons(s, rest) => StmtList::Cons(
            lower_stmt(s, m),
            Box::new(lower_stmts(*rest, m)),
        ),
    }
}

/// The diagnostics one statement's rewrite emits.
pub open spec fn stmt_diags(s: Stmt, m: Mode) -> Seq<Diag>
    decreases s,
{
    match s {
        Stmt::LetBind { is_mut, name, init } => expr_diags(init, m),
        Stmt::LetSomeElse { is_mut, name, source } => expr_diags(source, m),
        Stmt::ExprStmt(e) => expr_diags(e, m),
        Stmt::Assign { place, value } => expr_diags(value, m),
        Stmt::IfElse { cond, then_body, else_body } => expr_diags(cond, m) + stmts_diags(
            *then_body,
            m,
        ) + stmts_diags(*else_body, m),
        Stmt::ForRange { var, lo, hi, inclusive, body } => expr_diags(lo, m) + expr_diags(hi, m)
            + stmts_diags(*body, m),
        Stmt::ForIter { var, iter, body } => stmts_diags(*body, m),
        Stmt::WhileSome { var, source, body } => expr_diags(source, m) + stmts_diags(*body, m),
        Stmt::MacStmt { attrs, name, arg } => Seq::empty(),
    }
}

/// The diagnostics of a whole body's rewrite, in source order.
pub open spec fn stmts_diags(b: StmtList, m: Mode) -> Seq<Diag>
    decreases b,
{
    match b {
        StmtList::Nil => Seq::empty(),
        StmtList::Cons(s, rest) => stmt_diags(s, m) + stmts_diags(*rest, m),
    }
}

/// The visitor that performs one body rewrite. It holds only the two mode
/// flags, fixed for the pass.
pub struct BodyVisitor {
    pub is_async: bool,
    pub is_try_yield: bool,
}

impl BodyVisitor {
    /// The mode this visitor rewrites under.
    pub open spec fn mode(self) -> Mode {
        Mode { is_async: self.is_async, is_try_yield: self.is_try_yield }
    }

    /// A visitor for the given mode pair.
    pub fn new(is_async: bool, is_try_yield: bool) -> (v: BodyVisitor)
        ensures
            v.mode() == (Mode { is_async, is_try_yield }),
    {
        BodyVisitor { is_async, is_try_yield }
    }

    /// Rewrites one expression bottom-up, appending the diagnostics the
    /// rewrite emits.
    pub fn visit_expr(&self, e: Expr, diags: &mut Vec<Diag>) -> (r: Expr)
        ensures
            r == lower_expr(e, self.mode()),
            final(diags)@ == old(diags)@ + expr_diags(e, self.mode()),
        decreases e,
    {
        let ghost m = self.mode();
        match e {
            Expr::RetExpr(inner) => {
                match inner {
                    Option::Some(b) => {
                        let _dropped = self.visit_expr(*b, diags);
                        diags.push(Diag { level: DiagLevel::Error, kind: DiagKind::ReturnWithValue });
                        proof {
                            assert(final(diags)@ =~= old(diags)@ + expr_diags(e, m));
                        }
                        Expr::RetExpr(Option::None)
                    },
                    Option::None => Expr::RetExpr(Option::None),
                }
            },
            Expr::YieldExpr(inner) => {
                if self.is_async {
                    match inner {
                        Option::Some(b) => Expr::YieldReady(
                            Box::new(self.visit_expr(*b, diags)),
                        ),
                        Option::None => Expr::YieldReady(Box::new(Expr::Unit)),
                    }
                } else {
                    match inner {
                        Option::Some(b) => Expr::YieldExpr(
                            Option::Some(Box::new(self.visit_expr(*b, diags))),
                        ),
                        Option::None => Expr::YieldExpr(Option::None),
                    }
                }
            },
            Expr::AwaitExpr(b) => {
                if self.is_async {
                    Expr::AwaitPoll(Box::new(self.visit_expr(*b, diags)))
                } else {
                    Expr::AwaitExpr(Box::new(self.visit_expr(*b, diags)))
                }
            },
            Expr::TryExpr(b) => {
                if self.is_async && self.is_try_yield {
                    Expr::TryAsync(Box::new(self.visit_expr(*b, diags)))
                } else if !self.is_async && self.is_try_yield {
                    Expr::TrySync(Box::new(self.visit_expr(*b, diags)))
                } else if self.is_async {
                    Expr::TryBareAsync(Box::new(self.visit_expr(*b, diags)))
                } else {
                    Expr::TryBareSync(Box::new(self.visit_expr(*b, diags)))
                }
            },
            Expr::OverlapsOf { recv, arg } => {
                let recv2 = Box::new(self.visit_expr(*recv, diags));
                Expr::OverlapsOf { recv: recv2, arg: Box::new(self.visit_expr(*arg, diags)) }
            },
            Expr::MergeOf { recv, arg } => {
                let recv2 = Box::new(self.visit_expr(*recv, diags));
                Expr::MergeOf { recv: recv2, arg: Box::new(self.visit_expr(*arg, diags)) }
            },
            Expr::NegOf(b) => Expr::NegOf(Box::new(self.visit_expr(*b, diags))),
            Expr::SomeOf(b) => Expr::SomeOf(Box::new(self.visit_expr(*b, diags))),
            Expr::OkOf(b) => Expr::OkOf(Box::new(self.visit_expr(*b, diags))),
            Expr::ErrOf(b) => Expr::ErrOf(Box::new(self.visit_expr(*b, diags))),
            Expr::ReadyOf(b) => Expr::ReadyOf(Box::new(self.visit_expr(*b, diags))),
            Expr::ListLit(l) => Expr::ListLit(Box::new(self.visit_expr_list(*l, diags))),
            Expr::CallOpaque { method, recv, arg } => {
                let recv2 = Box::new(self.visit_expr(*recv, diags));
                let arg2 = match arg {
                    Option::Some(a) => Option::Some(Box::new(self.visit_expr(*a, diags))),
                    Option::None => Option::None,
                };
                Expr::CallOpaque { method, recv: recv2, arg: arg2 }
            },
            Expr::YieldReady(b) => Expr::YieldReady(Box::new(self.visit_expr(*b, diags))),
            Expr::AwaitPoll(b) => Expr::AwaitPoll(Box::new(self.visit_expr(*b, diags))),
            Expr::TrySync(b) => Expr::TrySync(Box::new(self.visit_expr(*b, diags))),
            Expr::TryAsync(b) => Expr::TryAsync(Box::new(self.visit_expr(*b, diags))),
            Expr::TryBareSync(b) => Expr::TryBareSync(Box::new(self.visit_expr(*b, diags))),
            Expr::TryBareAsync(b) => Expr::TryBareAsync(Box::new(self.visit_expr(*b, diags))),
            _ => e,
        }
    }

    /// Rewrites an expression sequence element by element.
    pub fn visit_expr_list(&self, l: ExprList, diags: &mut Vec<Diag>) -> (r: ExprList)
        ensures
            r == lower_expr_list(l, self.mode()),
            final(diags)@ == old(diags)@ + expr_list_diags(l, self.mode()),
        decreases l,
    {
        match l {
            ExprList::Nil => ExprList::Nil,
            ExprList::Cons(e, rest) => {
                let e2 = self.visit_expr(e, diags);
                ExprList::Cons(e2, Box::new(self.visit_expr_list(*rest, diags)))
            },
        }
    }

    /// Rewrites one statement.
    pub fn visit_stmt(&self, s: Stmt, diags: &mut Vec<Diag>) -> (r: Stmt)
        ensures
            r == lower_stmt(s, self.mode()),
            final(diags)@ == old(diags)@ + stmt_diags(s, self.mode()),
        decreases s,
    {
        match s {
            Stmt::LetBind { is_mut, name, init } => Stmt::LetBind {
                is_mut,
                name,
                init: self.visit_expr(init, diags),
            },
            Stmt::LetSomeElse { is_mut, name, source } => Stmt::LetSomeElse {
                is_mut,
                name,
                source: self.visit_expr(source, diags),
            },
            Stmt::ExprStmt(e) => Stmt::ExprStmt(self.visit_expr(e, diags)),
            Stmt::Assign { place, value } => Stmt::Assign {
                place,
                value: self.visit_expr(value, diags),
            },
            Stmt::IfElse { cond, then_body, else_body } => {
                let cond2 = self.visit_expr(cond, diags);
                let then2 = Box::new(self.visit_stmts(*then_body, diags));
                Stmt::IfElse { cond: cond2, then_body: then2, else_body: Box::new(self.visit_stmts(*else_body, diags)) }
            },
            Stmt::ForRange { var, lo, hi, inclusive, body } => {
                let lo2 = self.visit_expr(lo, diags);
                let hi2 = self.visit_expr(hi, diags);
                Stmt::ForRange {
                    var,
                    lo: lo2,
                    hi: hi2,
                    inclusive,
                    body: Box::new(self.visit_stmts(*body, diags)),
                }
            },
            Stmt::ForIter { var, iter, body } => Stmt::ForIter {
                var,
                iter,
                body: Box::new(self.visit_stmts(*body, diags)),
            },
            Stmt::WhileSome { var, source, body } => {
                let source2 = self.visit_expr(source, diags);
                Stmt::WhileSome {
                    var,
                    source: source2,
                    body: Box::new(self.visit_stmts(*body, diags)),
                }
            },
            Stmt::MacStmt { attrs, name, arg } => Stmt::MacStmt { attrs, name, arg },
        }
    }

    /// Rewrites a whole body.
    pub fn visit_stmts(&self, b: StmtList, diags: &mut Vec<Diag>) -> (r: StmtList)
        ensures
            r == lower_stmts(b, self.mode()),
            final(diags)@ == old(diags)@ + stmts_diags(b, self.mode()),
        decreases b,
    {
        match b {
            StmtList::Nil => StmtList::Nil,
            StmtList::Cons(s, rest) => {
                let s2 = self.visit_stmt(s, diags);
                StmtList::Cons(s2, Box::new(self.visit_stmts(*rest, diags)))
            },
        }
    }
}

} // verus!
