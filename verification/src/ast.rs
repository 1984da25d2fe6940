//! The canonical parsed form of a generator item declaration, and the
//! classification of its rewrite mode.

use vstd::prelude::*;

use crate::token::{LtName, Name, Punct, Tok, TokList};

verus! {

/// One annotation: `#[name]` or `#[name <args>]`, the argument tokens kept
/// verbatim.
pub struct Attr {
    pub name: Name,
    pub args: TokList,
}

/// An ordered annotation list.
pub enum AttrList {
    Nil,
    Cons(Attr, Box<AttrList>),
}

/// A visibility marker.
#[derive(Clone, Copy, PartialEq, Eq, Structural, Debug)]
pub enum Vis {
    Private,
    Public,
}

/// The shape of one parameter.
pub enum ArgKind {
    /// `self`, `&self`, `&'a self` or `&mut self`
    Receiver { by_ref: bool, lt: Option<LtName>, is_mut: bool },
    /// `name: Type`, the type kept as tokens
    Typed { is_mut: bool, name: Name, ty: TokList },
}

/// One parameter with its annotations.
pub struct Arg {
    pub attrs: AttrList,
    pub kind: ArgKind,
}

/// An ordered parameter list.
pub enum ArgList {
    Nil,
    Cons(Arg, Box<ArgList>),
}

/// One generic parameter: a lifetime, or a type parameter with its bound
/// tokens (empty when unbounded).
pub enum GParam {
    Lt(LtName),
    TyParam { name: Name, bound: TokList },
}

/// An ordered generic-parameter list.
pub enum GParams {
    Nil,
    Cons(GParam, Box<GParams>),
}

/// The canonical parsed form of one generator item declaration.
pub struct Decl {
    pub attrs: AttrList,
    pub vis: Vis,
    pub is_async: bool,
    pub name: Name,
    pub generics: GParams,
    pub args: ArgList,
    /// the declared yield type, as tokens; absent means the unit type
    pub yields: Option<TokList>,
    pub body: crate::expr::StmtList,
}

/// An ordinary function declaration whose body may hold nested generator
/// expression blocks.
pub struct OrdFn {
    pub attrs: AttrList,
    pub vis: Vis,
    pub name: Name,
    pub generics: GParams,
    pub args: ArgList,
    /// the declared return type, as tokens
    pub ret: Option<TokList>,
    pub body: crate::expr::StmtList,
}

/// The two cross-cutting flags that steer one body rewrite, computed once
/// per item and held immutably.
#[derive(Clone, Copy, PartialEq, Eq, Structural, Debug)]
pub struct Mode {
    pub is_async: bool,
    pub is_try_yield: bool,
}

/// One lowered generator expression: the rewritten body together with the
/// asynchrony flag and the captured size-hint expression tokens.
pub struct GenExpansion {
    pub is_async: bool,
    pub hint: Option<TokList>,
    pub body: crate::expr::StmtList,
}

/// The return type of a lowered function: either synthesized ("an opaque
/// producer of a sequence of the yield type, capturing the given lifetimes")
/// or the declaration's own explicit return type, used verbatim.
pub enum RetTy {
    Synthesized { is_async: bool, yields: TokList },
    Explicit(TokList),
}

/// The final lowered function.
pub struct LoweredFn {
    pub attrs: AttrList,
    pub vis: Vis,
    pub name: Name,
    pub generics: GParams,
    pub args: ArgList,
    pub ret: RetTy,
    pub producer: GenExpansion,
}

/// Whether the token sequence has no path separator `::` at angle-bracket
/// depth zero. Angle nesting past a million levels is not a simple path at
/// all and is rejected outright.
pub open spec fn no_toplevel_pathsep(ts: TokList, depth: int) -> bool
    decreases ts,
{
    match ts {
        TokList::Nil => true,
        TokList::Cons(t, rest) => match t {
            Tok::Punct(Punct::Lt) => depth < 1000000 && no_toplevel_pathsep(*rest, depth + 1),
            Tok::Punct(Punct::Gt) => depth > -1000000 && no_toplevel_pathsep(*rest, depth - 1),
            Tok::Punct(Punct::PathSep) => depth > 0 && no_toplevel_pathsep(*rest, depth),
            _ => no_toplevel_pathsep(*rest, depth),
        },
    }
}

/// A declared yield type is try-propagating exactly when it is a path of a
/// single segment whose name is literally `Result` or `Option` (possibly
/// with generic arguments). This is a syntactic test, not name resolution:
/// a qualified path or any other shape is not try-propagating.
pub open spec fn spec_is_try_yield(yields: Option<TokList>) -> bool {
    match yields {
        Option::None => false,
        Option::Some(ts) => match ts {
            TokList::Cons(Tok::Ident(n), rest) => (n == Name::TyResult || n == Name::TyOption)
                && (match *rest {
                    TokList::Nil => true,
                    TokList::Cons(Tok::Punct(Punct::Lt), _) => no_toplevel_pathsep(*rest, 0),
                    _ => false,
                }),
            _ => false,
        },
    }
}

/// Executable form of [`no_toplevel_pathsep`].
fn check_no_toplevel_pathsep(ts: &TokList, depth: i64) -> (r: bool)
    requires
        -1000000 <= depth <= 1000000,
    ensures
        r == no_toplevel_pathsep(*ts, depth as int),
    decreases *ts,
{
    match ts {
        TokList::Nil => true,
        TokList::Cons(t, rest) => match t {
            Tok::Punct(Punct::Lt) => depth < 1000000 && check_no_toplevel_pathsep(rest, depth + 1),
            Tok::Punct(Punct::Gt) => depth > -1000000 && check_no_toplevel_pathsep(
                rest,
                depth - 1,
            ),
            Tok::Punct(Punct::PathSep) => depth > 0 && check_no_toplevel_pathsep(rest, depth),
            _ => check_no_toplevel_pathsep(rest, depth),
        },
    }
}

/// Computes the try-propagation flag from the declared yield type.
pub fn is_try_yield(yields: &Option<TokList>) -> (r: bool)
    ensures
        r == spec_is_try_yield(*yields),
{
    match yields {
        Option::None => false,
        Option::Some(ts) => match ts {
            TokList::Cons(Tok::Ident(n), rest) => {
                let head_is_try = match n {
                    Name::TyResult => true,
                    Name::TyOption => true,
                    _ => false,
                };
                if !head_is_try {
                    false
                } else {
                    match &**rest {
                        TokList::Nil => true,
                        TokList::Cons(Tok::Punct(Punct::Lt), _) => check_no_toplevel_pathsep(
                            rest,
                            0,
                        ),
                        _ => false,
                    }
                }
            },
            _ => false,
        },
    }
}

/// Computes the rewrite mode for one item.
pub fn mode_of(is_async: bool, yields: &Option<TokList>) -> (m: Mode)
    ensures
        m.is_async == is_async,
        m.is_try_yield == spec_is_try_yield(*yields),
{
    Mode { is_async, is_try_yield: is_try_yield(yields) }
}

} // verus!
