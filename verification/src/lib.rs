//! A verified desugaring engine for generator items: function-like
//! declarations whose bodies suspend to emit a sequence of values instead of
//! returning once.
//!
//! Surface syntax arrives as a token sequence, is recognized by one of
//! several alternative grammars, and is lowered into an explicit
//! suspendable-computation form wrapped as a pull-based sequence producer
//! (or a poll-based asynchronous one). The lowering itself — keyword
//! marking, parsing, control-flow rewriting, size-hint extraction, lifetime
//! elision expansion, and assembly — is specified and proved here, and a
//! small driver gives the lowered form its sequence semantics.

pub mod ast;
pub mod assemble;
pub mod diag;
pub mod driver;
pub mod elision;
pub mod expand;
pub mod expr;
pub mod grammar;
pub mod item;
pub mod laws;
pub mod macrofy;
pub mod parse;
pub mod render;
pub mod rewrite;
pub mod token;
