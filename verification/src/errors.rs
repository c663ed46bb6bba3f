//! The error taxonomy of the transformer.
//!
//! Every fatal error is scoped to the single annotation or statement that
//! caused it and carries the source span of the offending construct. The
//! caller of the module-processing pass decides whether to abort or to go on
//! collecting diagnostics for sibling statements.

use vstd::prelude::*;
use crate::source::Span;

verus! {

/// A fatal error raised while processing one export annotation.
#[derive(Clone, Copy, PartialEq, Eq, Structural, Debug)]
pub enum Error {
    /// The annotation's argument list is malformed: the mandatory leading
    /// module path is missing, a separating comma is missing, a trailing
    /// comma is left dangling, or an option keyword is unknown or malformed.
    GrammarError { span: Span },
    /// The export annotation appears more than once on the same function.
    /// The span is that of the second occurrence.
    DuplicateAnnotationError { span: Span },
    /// The legacy positional name override is not a valid identifier.
    LegacyNameParseError { span: Span },
}

impl Error {
    /// The span of the construct this error blames.
    pub fn span(&self) -> (s: Span)
        ensures
            s == self.spec_span(),
    {
        match self {
            Error::GrammarError { span } => *span,
            Error::DuplicateAnnotationError { span } => *span,
            Error::LegacyNameParseError { span } => *span,
        }
    }

    pub open spec fn spec_span(&self) -> Span {
        match self {
            Error::GrammarError { span } => *span,
            Error::DuplicateAnnotationError { span } => *span,
            Error::LegacyNameParseError { span } => *span,
        }
    }

    /// A human-readable description of the error, phrased as the
    /// diagnostics of the surrounding system phrase them.
    pub fn message(&self) -> (m: &'static str)
        ensures
            self is GrammarError ==> m@ == "expected module as first argument"@,
            self is DuplicateAnnotationError ==> m@ == "may only be specified once"@,
            self is LegacyNameParseError ==> m@ == "expected identifier"@,
    {
        match self {
            Error::GrammarError { .. } => "expected module as first argument",
            Error::DuplicateAnnotationError { .. } => "may only be specified once",
            Error::LegacyNameParseError { .. } => "expected identifier",
        }
    }
}

} // verus!
