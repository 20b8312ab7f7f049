//! Byte ranges in a source text.

use vstd::prelude::*;

verus! {

/// A byte range `[start, end]` in a source text. Token ranges use `start`
/// inclusive and `end` exclusive, but offset membership is closed on both
/// ends so that a cursor sitting on the boundary of two adjacent tokens is
/// considered to touch both.
#[derive(Clone, Copy, Debug, PartialEq, Eq, Structural)]
pub struct TextRange {
    pub start: usize,
    pub end: usize,
}

impl TextRange {
    pub open spec fn wf(self) -> bool {
        self.start <= self.end
    }

    pub open spec fn spec_len(self) -> int {
        self.end - self.start
    }

    /// Whether `offset` touches this range (closed on both ends).
    pub open spec fn touches(self, offset: int) -> bool {
        self.start <= offset <= self.end
    }

    /// Whether `other` lies entirely within `self`.
    pub open spec fn spec_contains_range(self, other: TextRange) -> bool {
        self.start <= other.start && other.end <= self.end
    }

    pub open spec fn spec_intersect(self, other: TextRange) -> Option<TextRange> {
        let s = if self.start >= other.start { self.start } else { other.start };
        let e = if self.end <= other.end { self.end } else { other.end };
        if s <= e {
            Some(TextRange { start: s, end: e })
        } else {
            None
        }
    }

    pub fn new(start: usize, end: usize) -> (r: TextRange)
        requires
            start <= end,
        ensures
            r == (TextRange { start, end }),
    {
        TextRange { start, end }
    }

    /// The empty range sitting at `offset`.
    pub fn empty(offset: usize) -> (r: TextRange)
        ensures
            r == (TextRange { start: offset, end: offset }),
    {
        TextRange { start: offset, end: offset }
    }

    /// The range of length `len` starting at `start`.
    pub fn at(start: usize, len: usize) -> (r: TextRange)
        requires
            start + len <= usize::MAX,
        ensures
            r.start == start,
            r.end == start + len,
    {
        TextRange { start, end: start + len }
    }

    pub fn len(&self) -> (r: usize)
        requires
            self.wf(),
        ensures
            r == self.spec_len(),
    {
        self.end - self.start
    }

    pub fn contains_offset(&self, offset: usize) -> (r: bool)
        ensures
            r == self.touches(offset as int),
    {
        self.start <= offset && offset <= self.end
    }

    pub fn contains_range(&self, other: &TextRange) -> (r: bool)
        ensures
            r == self.spec_contains_range(*other),
    {
        self.start <= other.start && other.end <= self.end
    }

    pub fn intersect(&self, other: &TextRange) -> (r: Option<TextRange>)
        ensures
            r == self.spec_intersect(*other),
    {
        let s = if self.start >= other.start { self.start } else { other.start };
        let e = if self.end <= other.end { self.end } else { other.end };
        if s <= e {
            Some(TextRange { start: s, end: e })
        } else {
            None
        }
    }
}

} // verus!
