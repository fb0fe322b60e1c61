//! Offset-interval primitives referencing a single owned text buffer.

use vstd::prelude::*;

verus! {

/// A half-open interval `[start, end)` of character offsets into an owned
/// text buffer.  A span is meaningful only relative to the exact buffer it
/// was produced against; it is read back through the `Message` that owns
/// both the buffer and the span.
#[derive(Clone, Copy, PartialEq, Eq, Structural, Debug)]
pub struct Span {
    pub start: usize,
    pub end: usize,
}

/// A span is valid for a buffer of length `n` when its bounds are ordered
/// and fall inside the buffer.
pub open spec fn span_ok(sp: Span, n: nat) -> bool {
    sp.start <= sp.end <= n
}

/// The text a span selects out of the buffer `s`.
pub open spec fn span_text(s: Seq<char>, sp: Span) -> Seq<char>
    recommends
        span_ok(sp, s.len()),
{
    s.subrange(sp.start as int, sp.end as int)
}

/// Spec-level constructor used by the parsing model.
pub open spec fn span_at(start: int, end: int) -> Span {
    Span { start: start as usize, end: end as usize }
}

} // verus!
