//! Half-open source ranges and their merge operation.

use vstd::prelude::*;

verus! {

/// A half-open range over the source buffer, counted in characters:
/// it covers the positions `start`, `start + 1`, ..., `start + len - 1`.
#[derive(Default, Clone, Copy, Debug, PartialEq, Eq, Structural)]
pub struct Span {
    pub start: usize,
    pub len: usize,
}

impl Span {
    /// A span is well formed when its end position does not overflow.
    pub open spec fn wf(self) -> bool {
        self.start + self.len <= usize::MAX
    }

    /// The position one past the last covered position.
    pub open spec fn spec_end(self) -> int {
        self.start + self.len
    }

    /// The minimal span that covers both arguments: it starts at the smaller
    /// start and ends at the larger end.
    pub open spec fn spec_combine(s1: Span, s2: Span) -> Span {
        let start = if s1.start <= s2.start {
            s1.start
        } else {
            s2.start
        };
        let end = if s1.spec_end() >= s2.spec_end() {
            s1.spec_end()
        } else {
            s2.spec_end()
        };
        Span { start, len: (end - start) as usize }
    }

    pub fn new(start: usize, len: usize) -> (s: Span)
        requires
            start + len <= usize::MAX,
        ensures
            s == (Span { start, len }),
    {
        Span { start, len }
    }

    pub fn start(self) -> (r: usize)
        ensures
            r == self.start,
    {
        self.start
    }

    pub fn len(self) -> (r: usize)
        ensures
            r == self.len,
    {
        self.len
    }

    pub fn combine(s1: Span, s2: Span) -> (r: Span)
        requires
            s1.wf(),
            s2.wf(),
        ensures
            r == Span::spec_combine(s1, s2),
            r.wf(),
    {
        let start = if s1.start <= s2.start {
            s1.start
        } else {
            s2.start
        };
        let end1 = s1.start + s1.len;
        let end2 = s2.start + s2.len;
        let end = if end1 >= end2 {
            end1
        } else {
            end2
        };
        Span { start, len: end - start }
    }

    /// Merging two well-formed spans gives a well-formed span.
    pub proof fn lemma_combine_wf(s1: Span, s2: Span)
        requires
            s1.wf(),
            s2.wf(),
        ensures
            Span::spec_combine(s1, s2).wf(),
    {
    }

    /// Merging is commutative: the order of the two spans does not matter.
    pub proof fn lemma_combine_commutes(s1: Span, s2: Span)
        ensures
            Span::spec_combine(s1, s2) == Span::spec_combine(s2, s1),
    {
    }

    /// Merging a span with itself gives the span back.
    pub proof fn lemma_combine_self(s: Span)
        requires
            s.wf(),
        ensures
            Span::spec_combine(s, s) == s,
    {
    }
}

} // verus!
