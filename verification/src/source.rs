//! Source locations attached to tokens, attributes and diagnostics.

use vstd::prelude::*;

verus! {

/// A half-open byte range in the source text that a token or attribute
/// came from. Diagnostics carry the span of the construct they blame.
#[derive(Clone, Copy, PartialEq, Eq, Structural, Debug)]
pub struct Span {
    pub start: usize,
    pub end: usize,
}

impl Span {
    /// The span used when no source token is available to blame,
    /// for instance when an annotation's argument list is empty.
    pub fn call_site() -> (s: Span)
        ensures
            s == Span::spec_call_site(),
    {
        Span { start: 0, end: 0 }
    }

    pub open spec fn spec_call_site() -> Span {
        Span { start: 0, end: 0 }
    }
}

} // verus!
