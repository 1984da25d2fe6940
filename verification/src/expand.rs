//! The nested generator-block expander: locates generator macro
//! invocations anywhere in an ordinary function's body — statement or
//! expression position, at any depth — and rewrites each into a lowered
//! producer expression; an invocation whose body did not parse becomes an
//! inert error marker so the surrounding function still expands.
//!
//! Also here: finding the producer an expanded body holds, and entering a
//! function — evaluating its leading bindings — to instantiate it.

use vstd::prelude::*;

use crate::assemble::{GenMacro, gen_macro_spec};
use crate::ast::{AttrList, GenExpansion, Mode, OrdFn};
use crate::diag::{Diag, DiagKind, DiagLevel};
use crate::driver::{Env, EvalOut, bind, eval_expr, eval_expr_exec};
use crate::expr::{Expr, ExprList, MacArg, Place, Stmt, StmtList};
use crate::rewrite::stmts_diags;
use crate::token::Name;

verus! {

/// Whether an identifier is one of the generator-introducing keywords, and
/// if so whether it carries asynchrony.
pub open spec fn gen_kind(name: Name) -> Option<bool> {
    match name {
        Name::KwGen => Option::Some(false),
        Name::KwAsyncGen => Option::Some(true),
        _ => Option::None,
    }
}

/// What a generator macro invocation converts to: its parsed body built
/// into a producer under (asynchrony, no try-yield), or the inert error
/// marker when the body never parsed. Any other macro is left alone.
pub open spec fn convert_spec(name: Name, attrs: AttrList, arg: MacArg) -> Option<Expr> {
    match gen_kind(name) {
        Option::None => Option::None,
        Option::Some(is_async) => match arg {
            MacArg::Parsed(b) => Option::Some(
                gen_macro_spec(
                    GenMacro { body: *b, is_async, is_try_yield: false, attributes: attrs },
                ),
            ),
            MacArg::Raw(_) => Option::Some(Expr::ErrorMarker),
        },
    }
}

/// The diagnostics one conversion emits: the block's rewrite diagnostics,
/// or one error for a block that never parsed.
pub open spec fn convert_diags(name: Name, attrs: AttrList, arg: MacArg) -> Seq<Diag> {
    match gen_kind(name) {
        Option::None => Seq::empty(),
        Option::Some(is_async) => match arg {
            MacArg::Parsed(b) => stmts_diags(*b, Mode { is_async, is_try_yield: false }),
            MacArg::Raw(_) => seq![
                Diag { level: DiagLevel::Error, kind: DiagKind::UnexpectedToken },
            ],
        },
    }
}

/// The expansion of one expression: a generator invocation converts; every
/// other shape keeps its form with its children expanded. A converted
/// invocation is not re-entered.
pub open spec fn expand_expr(e: Expr) -> Expr
    decreases e,
{
    match e {
        Expr::MacCall { name, mac: arg } => match convert_spec(name, AttrList::Nil, arg) {
            Option::Some(e2) => e2,
            Option::None => Expr::MacCall { name, mac: arg },
        },
        Expr::OverlapsOf { recv, arg } => Expr::OverlapsOf {
            recv: Box::new(expand_expr(*recv)),
            arg: Box::new(expand_expr(*arg)),
        },
        Expr::MergeOf { recv, arg } => Expr::MergeOf {
            recv: Box::new(expand_expr(*recv)),
            arg: Box::new(expand_expr(*arg)),
        },
        Expr::NegOf(b) => Expr::NegOf(Box::new(expand_expr(*b))),
        Expr::SomeOf(b) => Expr::SomeOf(Box::new(expand_expr(*b))),
        Expr::OkOf(b) => Expr::OkOf(Box::new(expand_expr(*b))),
        Expr::ErrOf(b) => Expr::ErrOf(Box::new(expand_expr(*b))),
        Expr::ReadyOf(b) => Expr::ReadyOf(Box::new(expand_expr(*b))),
        Expr::ListLit(l) => Expr::ListLit(Box::new(expand_expr_list(*l))),
        Expr::CallOpaque { method, recv, arg } => Expr::CallOpaque {
            method,
            recv: Box::new(expand_expr(*recv)),
            arg: match arg {
                Option::Some(a) => Option::Some(Box::new(expand_expr(*a))),
                Option::None => Option::None,
            },
        },
        Expr::RetExpr(inner) => match inner {
            Option::Some(b) => Expr::RetExpr(Option::Some(Box::new(expand_expr(*b)))),
            Option::None => Expr::RetExpr(Option::None),
        },
        Expr::YieldExpr(inner) => match inner {
            Option::Some(b) => Expr::YieldExpr(Option::Some(Box::new(expand_expr(*b)))),
            Option::None => Expr::YieldExpr(Option::None),
        },
        Expr::AwaitExpr(b) => Expr::AwaitExpr(Box::new(expand_expr(*b))),
        Expr::TryExpr(b) => Expr::TryExpr(Box::new(expand_expr(*b))),
        _ => e,
    }
}

/// The expansion of an expression sequence.
pub open spec fn expand_expr_list(l: ExprList) -> ExprList
    decreases l,
{
    match l {
        ExprList::Nil => ExprList::Nil,
        ExprList::Cons(e, rest) => ExprList::Cons(expand_expr(e), Box::new(expand_expr_list(*rest))),
    }
}

/// The diagnostics an expression's expansion emits, in visit order.
pub open spec fn expand_expr_diags(e: Expr) -> Seq<Diag>
    decreases e,
{
    match e {
        Expr::MacCall { name, mac: arg } => convert_diags(name, AttrList::Nil, arg),
        Expr::OverlapsOf { recv, arg } => expand_expr_diags(*recv) + expand_expr_diags(*arg),
        Expr::MergeOf { recv, arg } => expand_expr_diags(*recv) + expand_expr_diags(*arg),
        Expr::NegOf(b) => expand_expr_diags(*b),
        Expr::SomeOf(b) => expand_expr_diags(*b),
        Expr::OkOf(b) => expand_expr_diags(*b),
        Expr::ErrOf(b) => expand_expr_diags(*b),
        Expr::ReadyOf(b) => expand_expr_diags(*b),
        Expr::ListLit(l) => expand_expr_list_diags(*l),
        Expr::CallOpaque { method, recv, arg } => expand_expr_diags(*recv) + (match arg {
            Option::Some(a) => expand_expr_diags(*a),
            Option::None => Seq::empty(),
        }),
        Expr::RetExpr(inner) => match inner {
            Option::Some(b) => expand_expr_diags(*b),
            Option::None => Seq::empty(),
        },
        Expr::YieldExpr(inner) => match inner {
            Option::Some(b) => expand_expr_diags(*b),
            Option::None => Seq::empty(),
        },
        Expr::AwaitExpr(b) => expand_expr_diags(*b),
        Expr::TryExpr(b) => expand_expr_diags(*b),
        _ => Seq::empty(),
    }
}

/// The diagnostics of an expression sequence's expansion.
pub open spec fn expand_expr_list_diags(l: ExprList) -> Seq<Diag>
    decreases l,
{
    match l {
        ExprList::Nil => Seq::empty(),
        ExprList::Cons(e, rest) => expand_expr_diags(e) + expand_expr_list_diags(*rest),
    }
}

/// The expansion of one statement: a generator invocation in statement
/// position converts — keeping its annotations — into an expression
/// statement; everything else keeps its shape with sub-bodies expanded.
pub open spec fn expand_stmt(s: Stmt) -> Stmt
    decreases s,
{
    match s {
        Stmt::MacStmt { attrs, name, arg } => match convert_spec(name, attrs, arg) {
            Option::Some(e2) => Stmt::ExprStmt(e2),
            Option::None => Stmt::MacStmt { attrs, name, arg },
        },
        Stmt::LetBind { is_mut, name, init } => Stmt::LetBind {
            is_mut,
            name,
            init: expand_expr(init),
        },
        Stmt::LetSomeElse { is_mut, name, source } => Stmt::LetSomeElse {
            is_mut,
            name,
            source: expand_expr(source),
        },
        Stmt::ExprStmt(e) => Stmt::ExprStmt(expand_expr(e)),
        Stmt::Assign { place, value } => Stmt::Assign { place, value: expand_expr(value) },
        Stmt::IfElse { cond, then_body, else_body } => Stmt::IfElse {
            cond: expand_expr(cond),
            then_body: Box::new(expand_stmts(*then_body)),
            else_body: Box::new(expand_stmts(*else_body)),
        },
        Stmt::ForRange { var, lo, hi, inclusive, body } => Stmt::ForRange {
            var,
            lo: expand_expr(lo),
            hi: expand_expr(hi),
            inclusive,
            body: Box::new(expand_stmts(*body)),
        },
        Stmt::ForIter { var, iter, body } => Stmt::ForIter {
            var,
            iter,
            body: Box::new(expand_stmts(*body)),
        },
        Stmt::WhileSome { var, source, body } => Stmt::WhileSome {
            var,
            source: expand_expr(source),
            body: Box::new(expand_stmts(*body)),
        },
    }
}

/// The expansion of a whole body.
pub open spec fn expand_stmts(b: StmtList) -> StmtList
    decreases b,
{
    match b {
        StmtList::Nil => StmtList::Nil,
        StmtList::Cons(s, rest) => StmtList::Cons(expand_stmt(s), Box::new(expand_stmts(*rest))),
    }
}

/// The diagnostics one statement's expansion emits.
pub open spec fn expand_stmt_diags(s: Stmt) -> Seq<Diag>
    decreases s,
{
    match s {
        Stmt::MacStmt { attrs, name, arg } => convert_diags(name, attrs, arg),
        Stmt::LetBind { is_mut, name, init } => expand_expr_diags(init),
        Stmt::LetSomeElse { is_mut, name, source } => expand_expr_diags(source),
        Stmt::ExprStmt(e) => expand_expr_diags(e),
        Stmt::Assign { place, value } => expand_expr_diags(value),
        Stmt::IfElse { cond, then_body, else_body } => expand_expr_diags(cond)
            + expand_stmts_diags(*then_body) + expand_stmts_diags(*else_body),
        Stmt::ForRange { var, lo, hi, inclusive, body } => expand_expr_diags(lo)
            + expand_expr_diags(hi) + expand_stmts_diags(*body),
        Stmt::ForIter { var, iter, body } => expand_stmts_diags(*body),
        Stmt::WhileSome { var, source, body } => expand_expr_diags(source) + expand_stmts_diags(
            *body,
        ),
    }
}

/// The diagnostics of a whole body's expansion.
pub open spec fn expand_stmts_diags(b: StmtList) -> Seq<Diag>
    decreases b,
{
    match b {
        StmtList::Nil => Seq::empty(),
        StmtList::Cons(s, rest) => expand_stmt_diags(s) + expand_stmts_diags(*rest),
    }
}

/// The expansion of an ordinary function: its body expanded, its signature
/// kept verbatim.
pub open spec fn expand_ord_spec(f: OrdFn) -> OrdFn {
    OrdFn {
        attrs: f.attrs,
        vis: f.vis,
        name: f.name,
        generics: f.generics,
        args: f.args,
        ret: f.ret,
        body: expand_stmts(f.body),
    }
}

impl GenMacro {
    /// Converts one macro invocation if it is a generator invocation,
    /// appending the diagnostics its block's rewrite emits.
    pub fn convert_macro(name: Name, attrs: AttrList, arg: MacArg, diags: &mut Vec<Diag>) -> (r:
        Option<Expr>)
        ensures
            r == convert_spec(name, attrs, arg),
            final(diags)@ == old(diags)@ + convert_diags(name, attrs, arg),
    {
        let is_async = match name {
            Name::KwGen => Option::Some(false),
            Name::KwAsyncGen => Option::Some(true),
            _ => Option::<bool>::None,
        };
        match is_async {
            Option::None => {
                proof {
                    assert(final(diags)@ =~= old(diags)@ + Seq::<Diag>::empty());
                }
                Option::None
            },
            Option::Some(is_async) => match arg {
                MacArg::Parsed(b) => {
                    let g = GenMacro {
                        body: *b,
                        is_async,
                        is_try_yield: false,
                        attributes: attrs,
                    };
                    Option::Some(g.build(diags))
                },
                MacArg::Raw(_) => {
                    diags.push(Diag { level: DiagLevel::Error, kind: DiagKind::UnexpectedToken });
                    proof {
                        assert(final(diags)@ =~= old(diags)@ + seq![
                            Diag { level: DiagLevel::Error, kind: DiagKind::UnexpectedToken },
                        ]);
                    }
                    Option::Some(Expr::ErrorMarker)
                },
            },
        }
    }
}

/// The visitor that expands nested generator blocks throughout an ordinary
/// function's body.
pub struct GenMacroExpander;

impl GenMacroExpander {
    /// Expands one expression.
    pub fn visit_expr(&self, e: Expr, diags: &mut Vec<Diag>) -> (r: Expr)
        ensures
            r == expand_expr(e),
            final(diags)@ == old(diags)@ + expand_expr_diags(e),
        decreases e,
    {
        match e {
            Expr::MacCall { name, mac: arg } => {
                let keep = match name {
                    Name::KwGen => false,
                    Name::KwAsyncGen => false,
                    _ => true,
                };
                if keep {
                    proof {
                        assert(final(diags)@ =~= old(diags)@ + Seq::<Diag>::empty());
                    }
                    Expr::MacCall { name, mac: arg }
                } else {
                    match GenMacro::convert_macro(name, AttrList::Nil, arg, diags) {
                        Option::Some(e2) => e2,
                        Option::None => Expr::ErrorMarker,
                    }
                }
            },
            Expr::OverlapsOf { recv, arg } => {
                let recv2 = Box::new(self.visit_expr(*recv, diags));
                Expr::OverlapsOf { recv: recv2, arg: Box::new(self.visit_expr(*arg, diags)) }
            },
            Expr::MergeOf { recv, arg } => {
                let recv2 = Box::new(self.visit_expr(*recv, diags));
                Expr::MergeOf { recv: recv2, arg: Box::new(self.visit_expr(*arg, diags)) }
            },
            Expr::NegOf(b) => Expr::NegOf(Box::new(self.visit_expr(*b, diags))),
            Expr::SomeOf(b) => Expr::SomeOf(Box::new(self.visit_expr(*b, diags))),
            Expr::OkOf(b) => Expr::OkOf(Box::new(self.visit_expr(*b, diags))),
            Expr::ErrOf(b) => Expr::ErrOf(Box::new(self.visit_expr(*b, diags))),
            Expr::ReadyOf(b) => Expr::ReadyOf(Box::new(self.visit_expr(*b, diags))),
            Expr::ListLit(l) => Expr::ListLit(Box::new(self.visit_expr_list(*l, diags))),
            Expr::CallOpaque { method, recv, arg } => {
                let recv2 = Box::new(self.visit_expr(*recv, diags));
                let arg2 = match arg {
                    Option::Some(a) => Option::Some(Box::new(self.visit_expr(*a, diags))),
                    Option::None => Option::None,
                };
                Expr::CallOpaque { method, recv: recv2, arg: arg2 }
            },
            Expr::RetExpr(inner) => match inner {
                Option::Some(b) => Expr::RetExpr(Option::Some(Box::new(self.visit_expr(*b, diags)))),
                Option::None => Expr::RetExpr(Option::None),
            },
            Expr::YieldExpr(inner) => match inner {
                Option::Some(b) => Expr::YieldExpr(
                    Option::Some(Box::new(self.visit_expr(*b, diags))),
                ),
                Option::None => Expr::YieldExpr(Option::None),
            },
            Expr::AwaitExpr(b) => Expr::AwaitExpr(Box::new(self.visit_expr(*b, diags))),
            Expr::TryExpr(b) => Expr::TryExpr(Box::new(self.visit_expr(*b, diags))),
            _ => e,
        }
    }

    /// Expands an expression sequence.
    pub fn visit_expr_list(&self, l: ExprList, diags: &mut Vec<Diag>) -> (r: ExprList)
        ensures
            r == expand_expr_list(l),
            final(diags)@ == old(diags)@ + expand_expr_list_diags(l),
        decreases l,
    {
        match l {
            ExprList::Nil => ExprList::Nil,
            ExprList::Cons(e, rest) => {
                let e2 = self.visit_expr(e, diags);
                ExprList::Cons(e2, Box::new(self.visit_expr_list(*rest, diags)))
            },
        }
    }

    /// Expands one statement.
    pub fn visit_stmt(&self, s: Stmt, diags: &mut Vec<Diag>) -> (r: Stmt)
        ensures
            r == expand_stmt(s),
            final(diags)@ == old(diags)@ + expand_stmt_diags(s),
        decreases s,
    {
        match s {
            Stmt::MacStmt { attrs, name, arg } => {
                let keep = match name {
                    Name::KwGen => false,
                    Name::KwAsyncGen => false,
                    _ => true,
                };
                if keep {
                    proof {
                        assert(final(diags)@ =~= old(diags)@ + Seq::<Diag>::empty());
                    }
                    Stmt::MacStmt { attrs, name, arg }
                } else {
                    match GenMacro::convert_macro(name, attrs, arg, diags) {
                        Option::Some(e2) => Stmt::ExprStmt(e2),
                        Option::None => Stmt::ExprStmt(Expr::ErrorMarker),
                    }
                }
            },
            Stmt::LetBind { is_mut, name, init } => Stmt::LetBind {
                is_mut,
                name,
                init: self.visit_expr(init, diags),
            },
            Stmt::LetSomeElse { is_mut, name, source } => Stmt::LetSomeElse {
                is_mut,
                name,
                source: self.visit_expr(source, diags),
            },
            Stmt::ExprStmt(e) => Stmt::ExprStmt(self.visit_expr(e, diags)),
            Stmt::Assign { place, value } => Stmt::Assign {
                place,
                value: self.visit_expr(value, diags),
            },
            Stmt::IfElse { cond, then_body, else_body } => {
                let cond2 = self.visit_expr(cond, diags);
                let then2 = Box::new(self.visit_stmts(*then_body, diags));
                Stmt::IfElse {
                    cond: cond2,
                    then_body: then2,
                    else_body: Box::new(self.visit_stmts(*else_body, diags)),
                }
            },
            Stmt::ForRange { var, lo, hi, inclusive, body } => {
                let lo2 = self.visit_expr(lo, diags);
                let hi2 = self.visit_expr(hi, diags);
                Stmt::ForRange {
                    var,
                    lo: lo2,
                    hi: hi2,
                    inclusive,
                    body: Box::new(self.visit_stmts(*body, diags)),
                }
            },
            Stmt::ForIter { var, iter, body } => Stmt::ForIter {
                var,
                iter,
                body: Box::new(self.visit_stmts(*body, diags)),
            },
            Stmt::WhileSome { var, source, body } => {
                let source2 = self.visit_expr(source, diags);
                Stmt::WhileSome { var, source: source2, body: Box::new(self.visit_stmts(*body, diags)) }
            },
        }
    }

    /// Expands a whole body.
    pub fn visit_stmts(&self, b: StmtList, diags: &mut Vec<Diag>) -> (r: StmtList)
        ensures
            r == expand_stmts(b),
            final(diags)@ == old(diags)@ + expand_stmts_diags(b),
        decreases b,
    {
        match b {
            StmtList::Nil => StmtList::Nil,
            StmtList::Cons(s, rest) => {
                let s2 = self.visit_stmt(s, diags);
                StmtList::Cons(s2, Box::new(self.visit_stmts(*rest, diags)))
            },
        }
    }

    /// Expands an ordinary function's body.
    pub fn visit_item_fn(&self, f: OrdFn, diags: &mut Vec<Diag>) -> (r: OrdFn)
        ensures
            r == expand_ord_spec(f),
            final(diags)@ == old(diags)@ + expand_stmts_diags(f.body),
    {
        let OrdFn { attrs, vis, name, generics, args, ret, body } = f;
        let body2 = self.visit_stmts(body, diags);
        OrdFn { attrs, vis, name, generics, args, ret, body: body2 }
    }
}

/// The first producer in an expression, in visit order.
pub open spec fn find_in_expr(e: Expr) -> Option<GenExpansion>
    decreases e,
{
    match e {
        Expr::Producer(gx) => Option::Some(*gx),
        Expr::NegOf(b) => find_in_expr(*b),
        Expr::SomeOf(b) => find_in_expr(*b),
        Expr::OkOf(b) => find_in_expr(*b),
        Expr::ErrOf(b) => find_in_expr(*b),
        Expr::ReadyOf(b) => find_in_expr(*b),
        Expr::CallOpaque { method, recv, arg } => match find_in_expr(*recv) {
            Option::Some(gx) => Option::Some(gx),
            Option::None => match arg {
                Option::Some(a) => find_in_expr(*a),
                Option::None => Option::None,
            },
        },
        Expr::RetExpr(inner) => match inner {
            Option::Some(b) => find_in_expr(*b),
            Option::None => Option::None,
        },
        Expr::YieldExpr(inner) => match inner {
            Option::Some(b) => find_in_expr(*b),
            Option::None => Option::None,
        },
        Expr::AwaitExpr(b) => find_in_expr(*b),
        Expr::TryExpr(b) => find_in_expr(*b),
        _ => Option::None,
    }
}

/// The first producer in a statement.
pub open spec fn find_in_stmt(s: Stmt) -> Option<GenExpansion> {
    match s {
        Stmt::LetBind { is_mut, name, init } => find_in_expr(init),
        Stmt::ExprStmt(e) => find_in_expr(e),
        _ => Option::None,
    }
}

/// The outcome of trying to take the producer out of an expression.
pub enum TakenExpr {
    Found(GenExpansion),
    Not(Expr),
}

/// Takes the first producer out of an expression, or hands the expression
/// back untouched.
pub fn take_from_expr(e: Expr) -> (r: TakenExpr)
    ensures
        match r {
            TakenExpr::Found(gx) => find_in_expr(e) == Option::Some(gx),
            TakenExpr::Not(e2) => e2 == e && find_in_expr(e) is None,
        },
    decreases e,
{
    match e {
        Expr::Producer(gx) => TakenExpr::Found(*gx),
        Expr::NegOf(b) => match take_from_expr(*b) {
            TakenExpr::Found(gx) => TakenExpr::Found(gx),
            TakenExpr::Not(b2) => TakenExpr::Not(Expr::NegOf(Box::new(b2))),
        },
        Expr::SomeOf(b) => match take_from_expr(*b) {
            TakenExpr::Found(gx) => TakenExpr::Found(gx),
            TakenExpr::Not(b2) => TakenExpr::Not(Expr::SomeOf(Box::new(b2))),
        },
        Expr::OkOf(b) => match take_from_expr(*b) {
            TakenExpr::Found(gx) => TakenExpr::Found(gx),
            TakenExpr::Not(b2) => TakenExpr::Not(Expr::OkOf(Box::new(b2))),
        },
        Expr::ErrOf(b) => match take_from_expr(*b) {
            TakenExpr::Found(gx) => TakenExpr::Found(gx),
            TakenExpr::Not(b2) => TakenExpr::Not(Expr::ErrOf(Box::new(b2))),
        },
        Expr::ReadyOf(b) => match take_from_expr(*b) {
            TakenExpr::Found(gx) => TakenExpr::Found(gx),
            TakenExpr::Not(b2) => TakenExpr::Not(Expr::ReadyOf(Box::new(b2))),
        },
        Expr::CallOpaque { method, recv, arg } => match take_from_expr(*recv) {
            TakenExpr::Found(gx) => TakenExpr::Found(gx),
            TakenExpr::Not(recv2) => match arg {
                Option::Some(a) => match take_from_expr(*a) {
                    TakenExpr::Found(gx) => TakenExpr::Found(gx),
                    TakenExpr::Not(a2) => TakenExpr::Not(
                        Expr::CallOpaque {
                            method,
                            recv: Box::new(recv2),
                            arg: Option::Some(Box::new(a2)),
                        },
                    ),
                },
                Option::None => TakenExpr::Not(
                    Expr::CallOpaque { method, recv: Box::new(recv2), arg: Option::None },
                ),
            },
        },
        Expr::RetExpr(inner) => match inner {
            Option::Some(b) => match take_from_expr(*b) {
                TakenExpr::Found(gx) => TakenExpr::Found(gx),
                TakenExpr::Not(b2) => TakenExpr::Not(Expr::RetExpr(Option::Some(Box::new(b2)))),
            },
            Option::None => TakenExpr::Not(Expr::RetExpr(Option::None)),
        },
        Expr::YieldExpr(inner) => match inner {
            Option::Some(b) => match take_from_expr(*b) {
                TakenExpr::Found(gx) => TakenExpr::Found(gx),
                TakenExpr::Not(b2) => TakenExpr::Not(Expr::YieldExpr(Option::Some(Box::new(b2)))),
            },
            Option::None => TakenExpr::Not(Expr::YieldExpr(Option::None)),
        },
        Expr::AwaitExpr(b) => match take_from_expr(*b) {
            TakenExpr::Found(gx) => TakenExpr::Found(gx),
            TakenExpr::Not(b2) => TakenExpr::Not(Expr::AwaitExpr(Box::new(b2))),
        },
        Expr::TryExpr(b) => match take_from_expr(*b) {
            TakenExpr::Found(gx) => TakenExpr::Found(gx),
            TakenExpr::Not(b2) => TakenExpr::Not(Expr::TryExpr(Box::new(b2))),
        },
        other => TakenExpr::Not(other),
    }
}

/// Entering a function body: evaluate its leading bindings until a
/// statement holding a producer is reached, and return that producer with
/// the environment built so far. A body whose prelude cannot be evaluated,
/// or that holds no producer, yields nothing.
pub open spec fn enter_spec(b: StmtList, env: Env) -> Option<(GenExpansion, Env)>
    decreases b,
{
    match b {
        StmtList::Nil => Option::None,
        StmtList::Cons(s, rest) => match find_in_stmt(s) {
            Option::Some(gx) => Option::Some((gx, env)),
            Option::None => match s {
                Stmt::LetBind { is_mut, name, init } => match eval_expr(init, env) {
                    EvalOut::Good { v, env: env2 } => enter_spec(
                        *rest,
                        bind(env2, Place::Var(name), v),
                    ),
                    EvalOut::Failed => Option::None,
                },
                Stmt::ExprStmt(e) => match eval_expr(e, env) {
                    EvalOut::Good { v, env: env2 } => enter_spec(*rest, env2),
                    EvalOut::Failed => Option::None,
                },
                _ => Option::None,
            },
        },
    }
}

/// Evaluates a function body's leading bindings and takes out the first
/// producer it holds.
pub fn enter_fn(b: StmtList, env: Env) -> (r: Option<(GenExpansion, Env)>)
    ensures
        match r {
            Option::Some(pair) => enter_spec(b, env) == Option::Some((pair.0, pair.1)),
            Option::None => enter_spec(b, env) is None,
        },
    decreases b,
{
    match b {
        StmtList::Nil => Option::None,
        StmtList::Cons(s, rest) => match s {
            Stmt::LetBind { is_mut, name, init } => match take_from_expr(init) {
                TakenExpr::Found(gx) => Option::Some((gx, env)),
                TakenExpr::Not(init2) => match eval_expr_exec(&init2, env) {
                    EvalOut::Good { v, env: env2 } => enter_fn(
                        *rest,
                        Env::Cons(
                            crate::driver::Binding { place: Place::Var(name), val: v },
                            Box::new(env2),
                        ),
                    ),
                    EvalOut::Failed => Option::None,
                },
            },
            Stmt::ExprStmt(e) => match take_from_expr(e) {
                TakenExpr::Found(gx) => Option::Some((gx, env)),
                TakenExpr::Not(e2) => match eval_expr_exec(&e2, env) {
                    EvalOut::Good { v, env: env2 } => enter_fn(*rest, env2),
                    EvalOut::Failed => Option::None,
                },
            },
            _ => Option::None,
        },
    }
}

} // verus!
