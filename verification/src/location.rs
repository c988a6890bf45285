//! Positions and spans over source text.
//!
//! A [`Location`] is a flat byte offset into the source; a
//! [`LocationRange`] is the half-open span `[start, end)`.  Both are plain
//! values: they carry no ownership of the text they index.

use vstd::prelude::*;

verus! {

/// A position in source text, as a byte offset from its start.
#[derive(Debug, Clone, Copy, PartialEq, Eq, Structural)]
pub struct Location {
    pub position: usize,
}

/// A half-open range `[start, end)` over source text.
#[derive(Debug, Clone, Copy, PartialEq, Eq, Structural)]
pub struct LocationRange {
    pub start: Location,
    pub end: Location,
}

impl LocationRange {
    /// A span is well formed when its start does not lie past its end.
    pub open spec fn wf(self) -> bool {
        self.start.position <= self.end.position
    }

    /// The number of bytes the span covers.
    pub open spec fn spec_len(self) -> int {
        self.end.position - self.start.position
    }

    /// Builds the span `[start, end)`.
    pub fn new(start: usize, end: usize) -> (r: LocationRange)
        requires
            start <= end,
        ensures
            r.start.position == start,
            r.end.position == end,
            r.wf(),
    {
        LocationRange { start: Location { position: start }, end: Location { position: end } }
    }

    /// The number of bytes the span covers.
    pub fn len(&self) -> (r: usize)
        requires
            self.wf(),
        ensures
            r == self.spec_len(),
    {
        self.end.position - self.start.position
    }
}

} // verus!
