//! The size-hint extractor and the assembler.
//!
//! The extractor scans the ordered annotation list for `size_hint` entries,
//! removes them from the list that will be re-attached to the emitted
//! function, and keeps the argument tokens of the last one (a deliberate
//! last-wins policy). The assembler combines the rewritten body, the
//! computed return type, the captured size-hint expression and a synthetic
//! unreachable tail into the final lowered function; the tail — an
//! unconditional terminator followed by a suspension whose value is never
//! evaluated — guarantees the lowered body is recognized as a suspendable
//! computation even when the body as written never suspends.

use vstd::prelude::*;

use crate::ast::{
    Attr, AttrList, Decl, GenExpansion, LoweredFn, Mode, RetTy, spec_is_try_yield,
};
use crate::diag::Diag;
use crate::elision::{unelide_lifetimes, unelide_spec};
use crate::expr::{Expr, Stmt, StmtList, stmt_append, stmt_append_exec};
use crate::rewrite::{BodyVisitor, lower_stmts, stmts_diags};
use crate::token::{Delim, Name, Tok, TokList};

verus! {

/// The annotation list with every size-hint entry removed, and the argument
/// tokens of the last size-hint entry if any was present.
pub open spec fn extract_hint(attrs: AttrList) -> (AttrList, Option<TokList>)
    decreases attrs,
{
    match attrs {
        AttrList::Nil => (AttrList::Nil, Option::None),
        AttrList::Cons(a, rest) => {
            let (kept, later) = extract_hint(*rest);
            if a.name == Name::AttrSizeHint {
                (
                    kept,
                    match later {
                        Option::Some(h) => Option::Some(h),
                        Option::None => Option::Some(a.args),
                    },
                )
            } else {
                (AttrList::Cons(Attr { name: a.name, args: a.args }, Box::new(kept)), later)
            }
        },
    }
}

/// Removes every size-hint annotation and captures the argument tokens of
/// the last one; absent any, no expression is captured and the default
/// estimate (zero, no upper bound) applies downstream.
pub fn extract_size_hint(attrs: AttrList) -> (r: (AttrList, Option<TokList>))
    ensures
        r == extract_hint(attrs),
    decreases attrs,
{
    match attrs {
        AttrList::Nil => (AttrList::Nil, Option::None),
        AttrList::Cons(a, rest) => {
            let (kept, later) = extract_size_hint(*rest);
            let is_hint = match a.name {
                Name::AttrSizeHint => true,
                _ => false,
            };
            if is_hint {
                (
                    kept,
                    match later {
                        Option::Some(h) => Option::Some(h),
                        Option::None => Option::Some(a.args),
                    },
                )
            } else {
                (AttrList::Cons(Attr { name: a.name, args: a.args }, Box::new(kept)), later)
            }
        },
    }
}

/// The synthetic tail appended to every rewritten body: terminate, then a
/// suspension that is never reached (its value is never evaluated). The
/// suspension's presence is what marks the lowered body as a suspendable
/// computation even when the body as written is empty.
pub open spec fn tail_stmts() -> StmtList {
    StmtList::Cons(
        Stmt::ExprStmt(Expr::RetExpr(Option::None)),
        Box::new(
            StmtList::Cons(
                Stmt::ExprStmt(Expr::YieldExpr(Option::Some(Box::new(Expr::PanicExpr)))),
                Box::new(StmtList::Nil),
            ),
        ),
    )
}

/// Builds the synthetic tail.
pub fn make_tail() -> (r: StmtList)
    ensures
        r == tail_stmts(),
{
    StmtList::Cons(
        Stmt::ExprStmt(Expr::RetExpr(Option::None)),
        Box::new(
            StmtList::Cons(
                Stmt::ExprStmt(Expr::YieldExpr(Option::Some(Box::new(Expr::PanicExpr)))),
                Box::new(StmtList::Nil),
            ),
        ),
    )
}

/// The token sequence of the unit type `()`, the default yield type.
pub open spec fn unit_ty_tokens() -> TokList {
    TokList::Cons(Tok::Group(Delim::Paren, Box::new(TokList::Nil)), Box::new(TokList::Nil))
}

/// The mode a declaration is rewritten under.
pub open spec fn decl_mode(d: Decl) -> Mode {
    Mode { is_async: d.is_async, is_try_yield: spec_is_try_yield(d.yields) }
}

/// The lowered function a declaration assembles into: arguments expanded by
/// lifetime elision, body rewritten under the declaration's mode with the
/// synthetic tail appended, size hint extracted from the annotations, and
/// the return type synthesized as an opaque producer of the yield type
/// (the declared one, or unit when none was declared).
pub open spec fn build_spec(d: Decl) -> LoweredFn {
    let m = decl_mode(d);
    let (generics2, args2) = unelide_spec(d.generics, d.args);
    let (attrs2, hint) = extract_hint(d.attrs);
    let yields_ty = match d.yields {
        Option::Some(ts) => ts,
        Option::None => unit_ty_tokens(),
    };
    let body2 = stmt_append(lower_stmts(d.body, m), tail_stmts());
    LoweredFn {
        attrs: attrs2,
        vis: d.vis,
        name: d.name,
        generics: generics2,
        args: args2,
        ret: RetTy::Synthesized { is_async: d.is_async, yields: yields_ty },
        producer: GenExpansion { is_async: d.is_async, hint, body: body2 },
    }
}

/// Assembles one parsed declaration into the final lowered function,
/// appending the diagnostics the body rewrite emits.
pub fn build(d: Decl, diags: &mut Vec<Diag>) -> (r: LoweredFn)
    ensures
        r == build_spec(d),
        final(diags)@ == old(diags)@ + stmts_diags(d.body, decl_mode(d)),
{
    let Decl { attrs, vis, is_async, name, generics, args, yields, body } = d;
    let visitor = BodyVisitor::new(is_async, crate::ast::is_try_yield(&yields));
    let (generics2, args2) = unelide_lifetimes(generics, args);
    let (attrs2, hint) = extract_size_hint(attrs);
    let yields_ty = match yields {
        Option::Some(ts) => ts,
        Option::None => crate::token::TokList::Cons(
            Tok::Group(Delim::Paren, Box::new(TokList::Nil)),
            Box::new(TokList::Nil),
        ),
    };
    let lowered = visitor.visit_stmts(body, diags);
    let body2 = stmt_append_exec(lowered, make_tail());
    LoweredFn {
        attrs: attrs2,
        vis,
        name,
        generics: generics2,
        args: args2,
        ret: RetTy::Synthesized { is_async, yields: yields_ty },
        producer: GenExpansion { is_async, hint, body: body2 },
    }
}

/// The expansion of one generator expression block, as assembled by
/// [`GenMacro::build`]: body rewritten under the block's mode, tail
/// appended, and the last size-hint annotation captured. The annotations of
/// a block are consumed here and not re-emitted.
pub open spec fn gen_macro_spec(g: GenMacro) -> Expr {
    let m = Mode { is_async: g.is_async, is_try_yield: g.is_try_yield };
    let (attrs2, hint) = extract_hint(g.attributes);
    let body2 = stmt_append(lower_stmts(g.body, m), tail_stmts());
    Expr::Producer(Box::new(GenExpansion { is_async: g.is_async, hint, body: body2 }))
}

/// One generator expression block awaiting expansion: its body, its mode
/// flags, and the annotations attached to it.
pub struct GenMacro {
    pub body: StmtList,
    pub is_async: bool,
    pub is_try_yield: bool,
    pub attributes: AttrList,
}

impl GenMacro {
    /// Assembles the block into a lowered producer expression, appending
    /// the diagnostics the body rewrite emits.
    pub fn build(self, diags: &mut Vec<Diag>) -> (r: Expr)
        ensures
            r == gen_macro_spec(self),
            final(diags)@ == old(diags)@ + stmts_diags(
                self.body,
                Mode { is_async: self.is_async, is_try_yield: self.is_try_yield },
            ),
    {
        let GenMacro { body, is_async, is_try_yield, attributes } = self;
        let visitor = BodyVisitor::new(is_async, is_try_yield);
        let (_attrs2, hint) = extract_size_hint(attributes);
        let lowered = visitor.visit_stmts(body, diags);
        let body2 = stmt_append_exec(lowered, make_tail());
        Expr::Producer(Box::new(GenExpansion { is_async, hint, body: body2 }))
    }
}

} // verus!
