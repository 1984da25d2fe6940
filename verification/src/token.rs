//! The token model: the unit in which surface syntax reaches the engine.
//!
//! A generator item arrives as a flat sequence of tokens. Identifiers are
//! interned: the handful of words the engine inspects (contextual keywords,
//! the names `Result` and `Option`, the method names the body grammar knows)
//! are their own variants, and every other identifier is `User(n)`.

use vstd::prelude::*;

verus! {

/// An interned identifier.
#[derive(Clone, Copy, PartialEq, Eq, Structural, Debug)]
pub enum Name {
    /// `fn`
    KwFn,
    /// `async`
    KwAsync,
    /// `gen`: the contextual keyword that introduces a generator
    KwGen,
    /// `async_gen`: the combined asynchrony + generator keyword
    KwAsyncGen,
    /// `yields`: the contextual keyword before a declared yield type
    KwYields,
    /// `yield`
    KwYield,
    /// `return`
    KwReturn,
    /// `let`
    KwLet,
    /// `mut`
    KwMut,
    /// `for`
    KwFor,
    /// `in`
    KwIn,
    /// `while`
    KwWhile,
    /// `if`
    KwIf,
    /// `else`
    KwElse,
    /// `pub`
    KwPub,
    /// `self`
    KwSelfValue,
    /// `await`
    KwAwait,
    /// `take`: the body grammar's "take an option out of a slot" method
    MethTake,
    /// `next`: the body grammar's "pull from an iterator slot" method
    MethNext,
    /// `overlaps`: the body grammar's interval-overlap test
    MethOverlaps,
    /// `merge`: the body grammar's interval union
    MethMerge,
    /// `size_hint`: the annotation that overrides the reported size hint
    AttrSizeHint,
    /// the type name `Result`
    TyResult,
    /// the type name `Option`
    TyOption,
    /// the constructor `Some`
    CtorSome,
    /// the constructor `None`
    CtorNone,
    /// the constructor `Ok`
    CtorOk,
    /// the constructor `Err`
    CtorErr,
    /// the constructor `ready`: a ready future carrying a value
    CtorReady,
    /// any other identifier
    User(u32),
}

/// A punctuation token.
#[derive(Clone, Copy, PartialEq, Eq, Structural, Debug)]
pub enum Punct {
    Star,
    Bang,
    Pound,
    Comma,
    Colon,
    /// `::`
    PathSep,
    Semi,
    Amp,
    Question,
    Dot,
    /// `->`
    RArrow,
    Lt,
    Gt,
    Eq,
    Minus,
    Plus,
    /// `..`
    DotDot,
    /// `..=`
    DotDotEq,
    /// `...`
    Ellipsis,
}

/// The delimiter of a bracketed group.
#[derive(Clone, Copy, PartialEq, Eq, Structural, Debug)]
pub enum Delim {
    Paren,
    Brace,
    Bracket,
}

/// A lifetime name. Synthesized names live in their own namespace, so a
/// freshly generated lifetime can never collide with one the user wrote.
#[derive(Clone, Copy, PartialEq, Eq, Structural, Debug)]
pub enum LtName {
    /// a lifetime written by the user
    User(u32),
    /// a lifetime synthesized by the elision expander
    Synth(u32),
}

/// One token tree: an identifier, punctuation, an integer literal, a
/// lifetime, or a bracketed group of nested tokens.
pub enum Tok {
    Ident(Name),
    Punct(Punct),
    LitInt(u64),
    Lifetime(LtName),
    Group(Delim, Box<TokList>),
}

/// A sequence of tokens.
pub enum TokList {
    Nil,
    Cons(Tok, Box<TokList>),
}

impl TokList {
    /// The number of tokens at the top level of the sequence.
    pub open spec fn len(self) -> nat
        decreases self,
    {
        match self {
            TokList::Nil => 0,
            TokList::Cons(_, rest) => 1 + rest.len(),
        }
    }
}

/// `a` followed by `b`.
pub open spec fn tok_append(a: TokList, b: TokList) -> TokList
    decreases a,
{
    match a {
        TokList::Nil => b,
        TokList::Cons(t, rest) => TokList::Cons(t, Box::new(tok_append(*rest, b))),
    }
}

/// Appending is associative.
pub broadcast proof fn lemma_tok_append_assoc(a: TokList, b: TokList, c: TokList)
    ensures
        #[trigger] tok_append(tok_append(a, b), c) == tok_append(a, tok_append(b, c)),
    decreases a,
{
    match a {
        TokList::Nil => {},
        TokList::Cons(t, rest) => {
            lemma_tok_append_assoc(*rest, b, c);
        },
    }
}

/// The empty sequence is a right identity of appending.
pub broadcast proof fn lemma_tok_append_nil(a: TokList)
    ensures
        #[trigger] tok_append(a, TokList::Nil) == a,
    decreases a,
{
    match a {
        TokList::Nil => {},
        TokList::Cons(t, rest) => {
            lemma_tok_append_nil(*rest);
        },
    }
}

/// The token sequence holding exactly the tokens of `s`, in order.
pub open spec fn toklist_of(s: Seq<Tok>) -> TokList
    decreases s.len(),
{
    if s.len() == 0 {
        TokList::Nil
    } else {
        TokList::Cons(s[0], Box::new(toklist_of(s.drop_first())))
    }
}

/// A deep copy of one token.
pub fn tok_clone(t: &Tok) -> (r: Tok)
    ensures
        r == *t,
    decreases *t,
{
    match t {
        Tok::Ident(n) => Tok::Ident(*n),
        Tok::Punct(p) => Tok::Punct(*p),
        Tok::LitInt(v) => Tok::LitInt(*v),
        Tok::Lifetime(l) => Tok::Lifetime(*l),
        Tok::Group(d, inner) => Tok::Group(*d, Box::new(toklist_clone(inner))),
    }
}

/// A deep copy of a token sequence.
pub fn toklist_clone(ts: &TokList) -> (r: TokList)
    ensures
        r == *ts,
    decreases *ts,
{
    match ts {
        TokList::Nil => TokList::Nil,
        TokList::Cons(t, rest) => TokList::Cons(tok_clone(t), Box::new(toklist_clone(rest))),
    }
}

/// Builds a token sequence from a vector of tokens.
pub fn toks(v: Vec<Tok>) -> (r: TokList)
    ensures
        r == toklist_of(v@),
    decreases v@.len(),
{
    let mut v = v;
    if v.len() == 0 {
        assert(v@.len() == 0);
        TokList::Nil
    } else {
        let h = v.remove(0);
        TokList::Cons(h, Box::new(toks(v)))
    }
}

} // verus!
