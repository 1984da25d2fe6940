//! Structured diagnostics.
//!
//! The engine never aborts a whole batch: a hard parse error is returned for
//! the one item it concerns, and shape violations caught during rewriting are
//! recorded while expansion continues.

use vstd::prelude::*;

verus! {

/// How severe a diagnostic is.
#[derive(Clone, Copy, PartialEq, Eq, Structural, Debug)]
pub enum DiagLevel {
    Warning,
    Error,
}

/// What a diagnostic says.
#[derive(Clone, Copy, PartialEq, Eq, Structural, Debug)]
pub enum DiagKind {
    /// the input began with none of the dispatch marker tokens
    ExpectedSyntaxMarker,
    /// the keyword-prefixed grammar saw something other than its keyword
    ExpectedGenKeyword,
    /// a token that no rule of the surface grammar expects
    UnexpectedToken,
    /// the prefixed-name grammar saw `->` where `yields` belongs; the yield
    /// type is still parsed (warning)
    ArrowAfterFnStar,
    /// a variadic parameter in an argument list
    VariadicArg,
    /// a second receiver parameter
    SecondReceiver,
    /// a receiver parameter after an ordinary parameter
    ReceiverAfterArg,
    /// `return <value>` inside a generator body; the value is dropped
    ReturnWithValue,
    /// a size-hint annotation whose argument fits no recognized shape
    MalformedSizeHint,
}

/// One diagnostic: a severity and a message.
#[derive(Clone, Copy, PartialEq, Eq, Structural, Debug)]
pub struct Diag {
    pub level: DiagLevel,
    pub kind: DiagKind,
}

impl Diag {
    /// An error-level diagnostic.
    pub fn error(kind: DiagKind) -> (r: Diag)
        ensures
            r == (Diag { level: DiagLevel::Error, kind }),
    {
        Diag { level: DiagLevel::Error, kind }
    }

    /// A warning-level diagnostic.
    pub fn warning(kind: DiagKind) -> (r: Diag)
        ensures
            r == (Diag { level: DiagLevel::Warning, kind }),
    {
        Diag { level: DiagLevel::Warning, kind }
    }

    /// A short explanation attached to some diagnostics.
    pub open spec fn spec_help(self) -> bool {
        self.kind == DiagKind::ReturnWithValue
    }

    /// Whether the diagnostic carries a help note ("returning in a generator
    /// only stops it", for `return <value>`).
    pub fn has_help(&self) -> (r: bool)
        ensures
            r == self.spec_help(),
    {
        match self.kind {
            DiagKind::ReturnWithValue => true,
            _ => false,
        }
    }
}

} // verus!
