//! Byte-offset ranges and atomic edits over a document's UTF-8 bytes.

use vstd::prelude::*;

verus! {

/// A half-open span `[start, end)` of byte offsets into a document.
#[derive(Clone, Copy, Debug, PartialEq, Eq, Structural)]
pub struct TextRange {
    pub start: usize,
    pub end: usize,
}

impl TextRange {
    /// `start <= end`; every range handed to this layer must satisfy it.
    pub open spec fn wf(self) -> bool {
        self.start <= self.end
    }

    /// The range lies within a document of `len` bytes.
    pub open spec fn in_bounds(self, len: int) -> bool {
        self.wf() && self.end <= len
    }

    /// `other` lies entirely inside `self` (boundaries may touch).
    pub open spec fn spec_contains_range(self, other: TextRange) -> bool {
        self.start <= other.start && other.end <= self.end
    }

    /// The two ranges share at least a point, counting touching endpoints:
    /// the convention of the engine's range type, whose `intersect` returns
    /// an empty range for spans that merely touch.
    pub open spec fn spec_touches(self, other: TextRange) -> bool {
        max_int(self.start as int, other.start as int)
            <= min_int(self.end as int, other.end as int)
    }

    /// The two ranges share at least one byte.
    pub open spec fn spec_overlaps(self, other: TextRange) -> bool {
        max_int(self.start as int, other.start as int)
            < min_int(self.end as int, other.end as int)
    }

    pub fn new(start: usize, end: usize) -> (r: TextRange)
        requires
            start <= end,
        ensures
            r == (TextRange { start, end }),
    {
        TextRange { start, end }
    }

    /// Whether `other` lies entirely inside `self`.
    pub fn contains_range(&self, other: &TextRange) -> (r: bool)
        ensures
            r == self.spec_contains_range(*other),
    {
        self.start <= other.start && other.end <= self.end
    }

    /// Whether the ranges intersect, counting touching endpoints.
    pub fn touches(&self, other: &TextRange) -> (r: bool)
        ensures
            r == self.spec_touches(*other),
    {
        let lo = if self.start >= other.start { self.start } else { other.start };
        let hi = if self.end <= other.end { self.end } else { other.end };
        lo <= hi
    }
}

pub open spec fn max_int(a: int, b: int) -> int {
    if a >= b { a } else { b }
}

pub open spec fn min_int(a: int, b: int) -> int {
    if a <= b { a } else { b }
}

/// A single document transformation: replace the byte span `delete` with the
/// UTF-8 bytes `insert`.
#[derive(Debug)]
pub struct AtomTextEdit {
    pub delete: TextRange,
    pub insert: Vec<u8>,
}

impl AtomTextEdit {
    pub open spec fn wf(self) -> bool {
        self.delete.wf()
    }

    /// Replace the byte span `delete` with `insert`.
    pub fn replace(delete: TextRange, insert: Vec<u8>) -> (r: AtomTextEdit)
        ensures
            r.delete == delete,
            r.insert == insert,
    {
        AtomTextEdit { delete, insert }
    }
}

/// The line-terminator convention of one document. Inserted text is
/// normalized to it before being sent to the editor.
#[derive(Clone, Copy, Debug, PartialEq, Eq, Structural)]
pub enum LineEndings {
    Unix,
    Dos,
}

} // verus!
