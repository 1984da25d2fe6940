//! Rendering: the token sequence a parsed form denotes.
//!
//! These specification functions pin the surface parsers down: whenever a
//! parser succeeds, its input is exactly the rendering of what it returned
//! followed by what it left unconsumed.

use vstd::prelude::*;

use crate::ast::{Arg, ArgKind, ArgList, Attr, AttrList, Decl, GParam, GParams, OrdFn, Vis};
use crate::expr::{Expr, ExprList, MacArg, Place, Stmt, StmtList};
use crate::token::{Delim, LtName, Name, Punct, Tok, TokList, tok_append};

verus! {

/// One token as a singleton sequence.
pub open spec fn one(t: Tok) -> TokList {
    TokList::Cons(t, Box::new(TokList::Nil))
}

/// Two tokens.
pub open spec fn two(t1: Tok, t2: Tok) -> TokList {
    TokList::Cons(t1, Box::new(one(t2)))
}

/// The tokens of a place.
pub open spec fn render_place(p: Place) -> TokList {
    match p {
        Place::Var(n) => one(Tok::Ident(n)),
        Place::SelfField(k) => TokList::Cons(
            Tok::Ident(Name::KwSelfValue),
            Box::new(two(Tok::Punct(Punct::Dot), Tok::LitInt(k as u64))),
        ),
    }
}

/// The tokens of an integer literal: a minus sign and magnitude when
/// negative.
pub open spec fn render_int(v: i64) -> TokList {
    if v >= 0 {
        one(Tok::LitInt(v as u64))
    } else {
        two(Tok::Punct(Punct::Minus), Tok::LitInt((-(v as int)) as u64))
    }
}

/// The tokens of one expression.
pub open spec fn render_expr(e: Expr) -> TokList
    decreases e, 1int,
{
    match e {
        Expr::Unit => one(Tok::Group(Delim::Paren, Box::new(TokList::Nil))),
        Expr::IntLit(v) => render_int(v),
        Expr::Read(p) => render_place(p),
        Expr::NegOf(b) => TokList::Cons(Tok::Punct(Punct::Minus), Box::new(render_expr(*b))),
        Expr::SomeOf(b) => two(
            Tok::Ident(Name::CtorSome),
            Tok::Group(Delim::Paren, Box::new(render_expr(*b))),
        ),
        Expr::NoneLit => one(Tok::Ident(Name::CtorNone)),
        Expr::OkOf(b) => two(
            Tok::Ident(Name::CtorOk),
            Tok::Group(Delim::Paren, Box::new(render_expr(*b))),
        ),
        Expr::ErrOf(b) => two(
            Tok::Ident(Name::CtorErr),
            Tok::Group(Delim::Paren, Box::new(render_expr(*b))),
        ),
        Expr::ReadyOf(b) => two(
            Tok::Ident(Name::CtorReady),
            Tok::Group(Delim::Paren, Box::new(render_expr(*b))),
        ),
        Expr::ListLit(l) => one(Tok::Group(Delim::Bracket, Box::new(render_expr_commas(*l)))),
        Expr::TakeOf(p) => tok_append(
            render_place(p),
            TokList::Cons(
                Tok::Punct(Punct::Dot),
                Box::new(
                    two(Tok::Ident(Name::MethTake), Tok::Group(Delim::Paren, Box::new(TokList::Nil))),
                ),
            ),
        ),
        Expr::NextOf(p) => tok_append(
            render_place(p),
            TokList::Cons(
                Tok::Punct(Punct::Dot),
                Box::new(
                    two(Tok::Ident(Name::MethNext), Tok::Group(Delim::Paren, Box::new(TokList::Nil))),
                ),
            ),
        ),
        Expr::RangeFull => one(Tok::Punct(Punct::DotDot)),
        Expr::OverlapsOf { recv, arg } => tok_append(
            render_expr(*recv),
            TokList::Cons(
                Tok::Punct(Punct::Dot),
                Box::new(
                    two(
                        Tok::Ident(Name::MethOverlaps),
                        Tok::Group(Delim::Paren, Box::new(render_expr(*arg))),
                    ),
                ),
            ),
        ),
        Expr::MergeOf { recv, arg } => tok_append(
            render_expr(*recv),
            TokList::Cons(
                Tok::Punct(Punct::Dot),
                Box::new(
                    two(
                        Tok::Ident(Name::MethMerge),
                        Tok::Group(Delim::Paren, Box::new(render_expr(*arg))),
                    ),
                ),
            ),
        ),
        Expr::CallOpaque { method, recv, arg } => tok_append(
            render_expr(*recv),
            TokList::Cons(
                Tok::Punct(Punct::Dot),
                Box::new(
                    two(
                        Tok::Ident(method),
                        Tok::Group(
                            Delim::Paren,
                            Box::new(
                                match arg {
                                    Option::Some(a) => render_expr(*a),
                                    Option::None => TokList::Nil,
                                },
                            ),
                        ),
                    ),
                ),
            ),
        ),
        Expr::MacCall { name, mac: arg } => TokList::Cons(
            Tok::Ident(name),
            Box::new(
                two(Tok::Punct(Punct::Bang), Tok::Group(Delim::Brace, Box::new(render_mac_arg(arg)))),
            ),
        ),
        Expr::RetExpr(inner) => match inner {
            Option::None => one(Tok::Ident(Name::KwReturn)),
            Option::Some(b) => TokList::Cons(Tok::Ident(Name::KwReturn), Box::new(render_expr(*b))),
        },
        Expr::YieldExpr(inner) => match inner {
            Option::None => one(Tok::Ident(Name::KwYield)),
            Option::Some(b) => TokList::Cons(Tok::Ident(Name::KwYield), Box::new(render_expr(*b))),
        },
        Expr::AwaitExpr(b) => tok_append(
            render_expr(*b),
            two(Tok::Punct(Punct::Dot), Tok::Ident(Name::KwAwait)),
        ),
        Expr::TryExpr(b) => tok_append(render_expr(*b), one(Tok::Punct(Punct::Question))),
        _ => TokList::Nil,
    }
}

/// The tokens of a comma-separated expression sequence, no trailing comma.
pub open spec fn render_expr_commas(l: ExprList) -> TokList
    decreases l, 2int,
{
    match l {
        ExprList::Nil => TokList::Nil,
        ExprList::Cons(e, rest) => match *rest {
            ExprList::Nil => render_expr(e),
            _ => tok_append(
                render_expr(e),
                TokList::Cons(Tok::Punct(Punct::Comma), Box::new(render_expr_commas(*rest))),
            ),
        },
    }
}

/// The tokens a macro invocation's braces hold.
pub open spec fn render_mac_arg(a: MacArg) -> TokList
    decreases a, 2int,
{
    match a {
        MacArg::Parsed(b) => render_stmts(*b),
        MacArg::Raw(ts) => ts,
    }
}

/// The tokens of one annotation.
pub open spec fn render_attr(a: Attr) -> TokList {
    two(
        Tok::Punct(Punct::Pound),
        Tok::Group(Delim::Bracket, Box::new(TokList::Cons(Tok::Ident(a.name), Box::new(a.args)))),
    )
}

/// The tokens of an annotation list.
pub open spec fn render_attrs(al: AttrList) -> TokList
    decreases al,
{
    match al {
        AttrList::Nil => TokList::Nil,
        AttrList::Cons(a, rest) => tok_append(render_attr(a), render_attrs(*rest)),
    }
}

/// The tokens of one statement.
pub open spec fn render_stmt(s: Stmt) -> TokList
    decreases s, 1int,
{
    match s {
        Stmt::LetBind { is_mut, name, init } => TokList::Cons(
            Tok::Ident(Name::KwLet),
            Box::new(
                tok_append(
                    if is_mut {
                        one(Tok::Ident(Name::KwMut))
                    } else {
                        TokList::Nil
                    },
                    TokList::Cons(
                        Tok::Ident(name),
                        Box::new(
                            TokList::Cons(
                                Tok::Punct(Punct::Eq),
                                Box::new(
                                    tok_append(render_expr(init), one(Tok::Punct(Punct::Semi))),
                                ),
                            ),
                        ),
                    ),
                ),
            ),
        ),
        Stmt::LetSomeElse { is_mut, name, source } => TokList::Cons(
            Tok::Ident(Name::KwLet),
            Box::new(
                TokList::Cons(
                    Tok::Ident(Name::CtorSome),
                    Box::new(
                        TokList::Cons(
                            Tok::Group(
                                Delim::Paren,
                                Box::new(
                                    if is_mut {
                                        two(Tok::Ident(Name::KwMut), Tok::Ident(name))
                                    } else {
                                        one(Tok::Ident(name))
                                    },
                                ),
                            ),
                            Box::new(
                                TokList::Cons(
                                    Tok::Punct(Punct::Eq),
                                    Box::new(
                                        tok_append(
                                            render_expr(source),
                                            TokList::Cons(
                                                Tok::Ident(Name::KwElse),
                                                Box::new(
                                                    two(
                                                        Tok::Group(
                                                            Delim::Brace,
                                                            Box::new(
                                                                two(
                                                                    Tok::Ident(Name::KwReturn),
                                                                    Tok::Punct(Punct::Semi),
                                                                ),
                                                            ),
                                                        ),
                                                        Tok::Punct(Punct::Semi),
                                                    ),
                                                ),
                                            ),
                                        ),
                                    ),
                                ),
                            ),
                        ),
                    ),
                ),
            ),
        ),
        Stmt::ExprStmt(e) => tok_append(render_expr(e), one(Tok::Punct(Punct::Semi))),
        Stmt::Assign { place, value } => tok_append(
            render_place(place),
            TokList::Cons(
                Tok::Punct(Punct::Eq),
                Box::new(tok_append(render_expr(value), one(Tok::Punct(Punct::Semi)))),
            ),
        ),
        Stmt::IfElse { cond, then_body, else_body } => TokList::Cons(
            Tok::Ident(Name::KwIf),
            Box::new(
                tok_append(
                    render_expr(cond),
                    TokList::Cons(
                        Tok::Group(Delim::Brace, Box::new(render_stmts(*then_body))),
                        Box::new(
                            two(
                                Tok::Ident(Name::KwElse),
                                Tok::Group(Delim::Brace, Box::new(render_stmts(*else_body))),
                            ),
                        ),
                    ),
                ),
            ),
        ),
        Stmt::ForRange { var, lo, hi, inclusive, body } => TokList::Cons(
            Tok::Ident(Name::KwFor),
            Box::new(
                TokList::Cons(
                    Tok::Ident(var),
                    Box::new(
                        TokList::Cons(
                            Tok::Ident(Name::KwIn),
                            Box::new(
                                tok_append(
                                    render_expr(lo),
                                    TokList::Cons(
                                        Tok::Punct(
                                            if inclusive {
                                                Punct::DotDotEq
                                            } else {
                                                Punct::DotDot
                                            },
                                        ),
                                        Box::new(
                                            tok_append(
                                                render_expr(hi),
                                                one(
                                                    Tok::Group(
                                                        Delim::Brace,
                                                        Box::new(render_stmts(*body)),
                                                    ),
                                                ),
                                            ),
                                        ),
                                    ),
                                ),
                            ),
                        ),
                    ),
                ),
            ),
        ),
        Stmt::ForIter { var, iter, body } => TokList::Cons(
            Tok::Ident(Name::KwFor),
            Box::new(
                TokList::Cons(
                    Tok::Ident(var),
                    Box::new(
                        TokList::Cons(
                            Tok::Ident(Name::KwIn),
                            Box::new(
                                tok_append(
                                    render_place(iter),
                                    one(Tok::Group(Delim::Brace, Box::new(render_stmts(*body)))),
                                ),
                            ),
                        ),
                    ),
                ),
            ),
        ),
        Stmt::WhileSome { var, source, body } => TokList::Cons(
            Tok::Ident(Name::KwWhile),
            Box::new(
                TokList::Cons(
                    Tok::Ident(Name::KwLet),
                    Box::new(
                        TokList::Cons(
                            Tok::Ident(Name::CtorSome),
                            Box::new(
                                TokList::Cons(
                                    Tok::Group(Delim::Paren, Box::new(one(Tok::Ident(var)))),
                                    Box::new(
                                        TokList::Cons(
                                            Tok::Punct(Punct::Eq),
                                            Box::new(
                                                tok_append(
                                                    render_expr(source),
                                                    one(
                                                        Tok::Group(
                                                            Delim::Brace,
                                                            Box::new(render_stmts(*body)),
                                                        ),
                                                    ),
                                                ),
                                            ),
                                        ),
                                    ),
                                ),
                            ),
                        ),
                    ),
                ),
            ),
        ),
        Stmt::MacStmt { attrs, name, arg } => tok_append(
            render_attrs(attrs),
            TokList::Cons(
                Tok::Ident(name),
                Box::new(
                    two(
                        Tok::Punct(Punct::Bang),
                        Tok::Group(Delim::Brace, Box::new(render_mac_arg(arg))),
                    ),
                ),
            ),
        ),
    }
}

/// The tokens of a whole body.
pub open spec fn render_stmts(b: StmtList) -> TokList
    decreases b, 2int,
{
    match b {
        StmtList::Nil => TokList::Nil,
        StmtList::Cons(s, rest) => tok_append(render_stmt(s), render_stmts(*rest)),
    }
}

/// The tokens of a visibility marker.
pub open spec fn render_vis(v: Vis) -> TokList {
    match v {
        Vis::Private => TokList::Nil,
        Vis::Public => one(Tok::Ident(Name::KwPub)),
    }
}

/// The tokens of one parameter's shape.
pub open spec fn render_arg_kind(k: ArgKind) -> TokList {
    match k {
        ArgKind::Receiver { by_ref, lt, is_mut } => {
            if by_ref {
                let tail = if is_mut {
                    two(Tok::Ident(Name::KwMut), Tok::Ident(Name::KwSelfValue))
                } else {
                    one(Tok::Ident(Name::KwSelfValue))
                };
                match lt {
                    Option::Some(l) => TokList::Cons(
                        Tok::Punct(Punct::Amp),
                        Box::new(TokList::Cons(Tok::Lifetime(l), Box::new(tail))),
                    ),
                    Option::None => TokList::Cons(Tok::Punct(Punct::Amp), Box::new(tail)),
                }
            } else {
                one(Tok::Ident(Name::KwSelfValue))
            }
        },
        ArgKind::Typed { is_mut, name, ty } => {
            let tail = TokList::Cons(
                Tok::Ident(name),
                Box::new(TokList::Cons(Tok::Punct(Punct::Colon), Box::new(ty))),
            );
            if is_mut {
                TokList::Cons(Tok::Ident(Name::KwMut), Box::new(tail))
            } else {
                tail
            }
        },
    }
}

/// The tokens of one parameter.
pub open spec fn render_arg(a: Arg) -> TokList {
    tok_append(render_attrs(a.attrs), render_arg_kind(a.kind))
}

/// The tokens of the parameter list, comma separated, no trailing comma.
pub open spec fn render_args(args: ArgList) -> TokList
    decreases args,
{
    match args {
        ArgList::Nil => TokList::Nil,
        ArgList::Cons(a, rest) => match *rest {
            ArgList::Nil => render_arg(a),
            _ => tok_append(
                render_arg(a),
                TokList::Cons(Tok::Punct(Punct::Comma), Box::new(render_args(*rest))),
            ),
        },
    }
}

/// The tokens of one generic parameter.
pub open spec fn render_gparam(p: GParam) -> TokList {
    match p {
        GParam::Lt(l) => one(Tok::Lifetime(l)),
        GParam::TyParam { name, bound } => match bound {
            TokList::Nil => one(Tok::Ident(name)),
            _ => TokList::Cons(
                Tok::Ident(name),
                Box::new(TokList::Cons(Tok::Punct(Punct::Colon), Box::new(bound))),
            ),
        },
    }
}

/// The comma-separated generic parameters.
pub open spec fn render_gparams(g: GParams) -> TokList
    decreases g,
{
    match g {
        GParams::Nil => TokList::Nil,
        GParams::Cons(p, rest) => match *rest {
            GParams::Nil => render_gparam(p),
            _ => tok_append(
                render_gparam(p),
                TokList::Cons(Tok::Punct(Punct::Comma), Box::new(render_gparams(*rest))),
            ),
        },
    }
}

/// The tokens of a generic-parameter list: nothing when empty, else the
/// angle-bracketed parameters.
pub open spec fn render_generics(g: GParams) -> TokList {
    match g {
        GParams::Nil => TokList::Nil,
        _ => TokList::Cons(
            Tok::Punct(Punct::Lt),
            Box::new(tok_append(render_gparams(g), one(Tok::Punct(Punct::Gt)))),
        ),
    }
}

/// The tokens of a signature tail shared by every item grammar: the
/// generic parameters, the parenthesized arguments, an optional type
/// introduced by the given token, and the braced body.
pub open spec fn render_sig(
    generics: GParams,
    args: ArgList,
    yopt: Option<TokList>,
    intro: Tok,
    body: StmtList,
) -> TokList {
    tok_append(
        render_generics(generics),
        TokList::Cons(
            Tok::Group(Delim::Paren, Box::new(render_args(args))),
            Box::new(
                tok_append(
                    match yopt {
                        Option::Some(ty) => TokList::Cons(intro, Box::new(ty)),
                        Option::None => TokList::Nil,
                    },
                    one(Tok::Group(Delim::Brace, Box::new(render_stmts(body)))),
                ),
            ),
        ),
    )
}

/// The tokens of a prefixed-name declaration (after its dispatch marker):
/// `[attrs] [pub] [async] fn * name [generics] (args) [yields|-> Ty] { body }`.
/// The `arrow` flag records that the warned-about `->` spelling introduced
/// the yield type.
pub open spec fn render_fn_star(d: Decl, arrow: bool) -> TokList {
    tok_append(
        render_attrs(d.attrs),
        tok_append(
            render_vis(d.vis),
            tok_append(
                if d.is_async {
                    one(Tok::Ident(Name::KwAsync))
                } else {
                    TokList::Nil
                },
                TokList::Cons(
                    Tok::Ident(Name::KwFn),
                    Box::new(
                        TokList::Cons(
                            Tok::Punct(Punct::Star),
                            Box::new(
                                TokList::Cons(
                                    Tok::Ident(d.name),
                                    Box::new(
                                        render_sig(
                                            d.generics,
                                            d.args,
                                            d.yields,
                                            if arrow {
                                                Tok::Punct(Punct::RArrow)
                                            } else {
                                                Tok::Ident(Name::KwYields)
                                            },
                                            d.body,
                                        ),
                                    ),
                                ),
                            ),
                        ),
                    ),
                ),
            ),
        ),
    )
}

/// The tokens of a keyword-prefixed declaration (after its dispatch
/// marker): `[attrs] [pub] [async] gen ! fn name [generics] (args) [-> Ty]
/// { body }`. The `combined` flag records the combined `async_gen` keyword
/// spelling, which carries the asynchrony by itself.
pub open spec fn render_gen_2996(d: Decl, combined: bool) -> TokList {
    tok_append(
        render_attrs(d.attrs),
        tok_append(
            render_vis(d.vis),
            tok_append(
                if d.is_async && !combined {
                    one(Tok::Ident(Name::KwAsync))
                } else {
                    TokList::Nil
                },
                TokList::Cons(
                    Tok::Ident(
                        if combined {
                            Name::KwAsyncGen
                        } else {
                            Name::KwGen
                        },
                    ),
                    Box::new(
                        TokList::Cons(
                            Tok::Punct(Punct::Bang),
                            Box::new(
                                TokList::Cons(
                                    Tok::Ident(Name::KwFn),
                                    Box::new(
                                        TokList::Cons(
                                            Tok::Ident(d.name),
                                            Box::new(
                                                render_sig(
                                                    d.generics,
                                                    d.args,
                                                    d.yields,
                                                    Tok::Punct(Punct::RArrow),
                                                    d.body,
                                                ),
                                            ),
                                        ),
                                    ),
                                ),
                            ),
                        ),
                    ),
                ),
            ),
        ),
    )
}

/// The tokens of an ordinary function declaration (after its dispatch
/// marker): `[attrs] [pub] fn name [generics] (args) [-> Ty] { body }`.
pub open spec fn render_ord_fn(f: OrdFn) -> TokList {
    tok_append(
        render_attrs(f.attrs),
        tok_append(
            render_vis(f.vis),
            TokList::Cons(
                Tok::Ident(Name::KwFn),
                Box::new(
                    TokList::Cons(
                        Tok::Ident(f.name),
                        Box::new(
                            render_sig(
                                f.generics,
                                f.args,
                                f.ret,
                                Tok::Punct(Punct::RArrow),
                                f.body,
                            ),
                        ),
                    ),
                ),
            ),
        ),
    )
}

} // verus!
