//! The per-document line index: the read-only structure that translates
//! between byte offsets into a document's UTF-8 bytes and (zero-based line,
//! UTF-16 code-unit column) positions.
//!
//! The document is modelled as its byte sequence. A byte starts a character
//! exactly when it is not a UTF-8 continuation byte; a lead byte `>= 0xF0`
//! opens a character outside the basic multilingual plane, which occupies two
//! UTF-16 code units, and every other lead byte one. Line terminators are
//! `0x0A` bytes. Offsets handed to the index are assumed to lie on character
//! boundaries within the document, as the protocol requires of the caller.

use vstd::prelude::*;

verus! {

/// A byte that begins a UTF-8 encoded character (anything but a
/// continuation byte `0x80..=0xBF`).
pub open spec fn is_char_start(b: u8) -> bool {
    b < 0x80 || b >= 0xC0
}

/// How many UTF-16 code units the byte contributes to its line's column
/// count: continuation bytes none, lead bytes of supplementary-plane
/// characters two, all other character starts one.
pub open spec fn utf16_units(b: u8) -> int {
    if !is_char_start(b) {
        0
    } else if b >= 0xF0 {
        2
    } else {
        1
    }
}

/// `o` lies on a character boundary of `s` (possibly its end).
pub open spec fn is_boundary(s: Seq<u8>, o: int) -> bool {
    0 <= o <= s.len() && (o == s.len() || is_char_start(s[o]))
}

/// Number of line terminators among the first `to` bytes — that is, the
/// zero-based line number of offset `to`.
pub open spec fn newline_count(s: Seq<u8>, to: int) -> int
    decreases to,
{
    if to <= 0 {
        0
    } else {
        newline_count(s, to - 1) + if s[to - 1] == 0x0A { 1int } else { 0int }
    }
}

/// UTF-16 code units contributed by the bytes of `s` in `[from, to)`.
pub open spec fn utf16_len(s: Seq<u8>, from: int, to: int) -> int
    decreases to - from,
{
    if to <= from {
        0
    } else {
        utf16_len(s, from, to - 1) + utf16_units(s[to - 1])
    }
}

/// Offset of the first line terminator at or after `p`, or the document
/// length when the line runs to the end.
pub open spec fn end_of_line_from(s: Seq<u8>, p: int) -> int
    decreases s.len() - p,
{
    if p < 0 {
        0
    } else if p >= s.len() {
        s.len() as int
    } else if s[p] == 0x0A {
        p
    } else {
        end_of_line_from(s, p + 1)
    }
}

/// Offset at which the line containing offset `o` starts: `0`, or the
/// offset just past the previous line terminator.
pub open spec fn start_of_line_containing(s: Seq<u8>, o: int) -> int
    decreases o,
{
    if o <= 0 {
        0
    } else if s[o - 1] == 0x0A {
        o
    } else {
        start_of_line_containing(s, o - 1)
    }
}

/// `p` is the offset at which line `l` starts.
pub open spec fn is_line_start(s: Seq<u8>, p: int, l: int) -> bool {
    0 <= p <= s.len() && newline_count(s, p) == l && (p == 0 || s[p - 1] == 0x0A)
}

/// The offset at which line `l` starts; meaningful for
/// `0 <= l <= newline_count(s, s.len())`.
pub open spec fn line_start_of(s: Seq<u8>, l: int) -> int
    decreases l,
{
    if l <= 0 {
        0
    } else {
        end_of_line_from(s, line_start_of(s, l - 1)) + 1
    }
}

/// The UTF-16 column of offset `o` within its line.
pub open spec fn col_of(s: Seq<u8>, o: int) -> int {
    utf16_len(s, start_of_line_containing(s, o), o)
}

/// Walk forward from `p` until `col` UTF-16 units have been passed and a
/// character boundary is reached: the position-to-offset direction.
pub open spec fn advance_to_col(s: Seq<u8>, p: int, col: int) -> int
    decreases s.len() - p,
{
    if p < 0 || p >= s.len() {
        s.len() as int
    } else if col <= 0 && is_char_start(s[p]) {
        p
    } else if col <= 0 {
        advance_to_col(s, p + 1, col)
    } else {
        advance_to_col(s, p + 1, col - utf16_units(s[p]))
    }
}

/// The byte offset of position (`line`, `col`): start at the line's start
/// and advance by `col` UTF-16 units.
pub open spec fn offset_of(s: Seq<u8>, line: int, col: int) -> int {
    advance_to_col(s, line_start_of(s, line), col)
}

/// The position names an existing line and a column within that line.
pub open spec fn position_in_bounds(s: Seq<u8>, line: int, col: int) -> bool {
    &&& 0 <= line <= newline_count(s, s.len() as int)
    &&& 0 <= col <= utf16_len(
        s,
        line_start_of(s, line),
        end_of_line_from(s, line_start_of(s, line)),
    )
}

/// A (zero-based line, UTF-16 column) position, as the engine speaks it.
#[derive(Clone, Copy, Debug, PartialEq, Eq, Structural)]
pub struct LineCol {
    pub line: u32,
    pub col_utf16: u32,
}

/// The read-only per-document index. It owns the document bytes; documents
/// are limited to `0x7FFF_FFFF` bytes so that line and column counts fit
/// the protocol's 32-bit fields.
pub struct LineIndex {
    text: Vec<u8>,
}

impl View for LineIndex {
    type V = Seq<u8>;

    closed spec fn view(&self) -> Seq<u8> {
        self.text@
    }
}

impl LineIndex {
    pub open spec fn wf(&self) -> bool {
        self@.len() <= 0x7FFF_FFFF
    }

    pub fn new(text: Vec<u8>) -> (r: LineIndex)
        requires
            text@.len() <= 0x7FFF_FFFF,
        ensures
            r@ == text@,
            r.wf(),
    {
        LineIndex { text }
    }

    pub fn len(&self) -> (r: usize)
        ensures
            r == self@.len(),
    {
        self.text.len()
    }

    /// The document bytes the index was built over.
    pub fn text(&self) -> (r: &Vec<u8>)
        ensures
            r@ == self@,
    {
        &self.text
    }

    /// The byte at offset `p`, for examining text around a converted range.
    pub fn byte_at(&self, p: usize) -> (r: u8)
        requires
            p < self@.len(),
        ensures
            r == self@[p as int],
    {
        self.text[p]
    }

    /// Convert a byte offset to its line and UTF-16 column.
    pub fn line_col(&self, offset: usize) -> (r: LineCol)
        requires
            self.wf(),
            offset <= self@.len(),
        ensures
            r.line == newline_count(self@, offset as int),
            r.col_utf16 == col_of(self@, offset as int),
    {
        let ghost s = self@;
        let mut p: usize = 0;
        let mut line: u32 = 0;
        let mut ls: usize = 0;
        let mut col: u32 = 0;
        while p < offset
            invariant
                p <= offset <= s.len() <= 0x7FFF_FFFF,
                s == self@,
                line == newline_count(s, p as int),
                ls == start_of_line_containing(s, p as int),
                ls <= p,
                col == utf16_len(s, ls as int, p as int),
            decreases offset - p,
        {
            proof {
                lemma_newline_count_bounds(s, p + 1);
                lemma_utf16_len_le_double(s, ls as int, p + 1);
            }
            let b = self.text[p];
            if b == 0x0A {
                line = line + 1;
                ls = p + 1;
                col = 0;
            } else {
                col = col + byte_utf16_units(b);
            }
            p = p + 1;
        }
        proof {
            lemma_newline_count_bounds(s, offset as int);
        }
        LineCol { line, col_utf16: col }
    }

    /// Convert a line and UTF-16 column back to a byte offset.
    ///
    /// The result is the smallest character boundary in the line at or past
    /// `col` units (see [`lemma_offset_of_least_boundary`]); for positions
    /// produced by [`Self::line_col`] from a boundary offset this is exactly
    /// that offset (see [`lemma_offset_position_round_trip`]).
    pub fn offset(&self, lc: LineCol) -> (r: usize)
        requires
            self.wf(),
            position_in_bounds(self@, lc.line as int, lc.col_utf16 as int),
        ensures
            r == offset_of(self@, lc.line as int, lc.col_utf16 as int),
            r <= self@.len(),
    {
        let ghost s = self@;
        let n = self.text.len();

        // Find the start of line `lc.line`.
        let mut p: usize = 0;
        let mut line: u32 = 0;
        while line < lc.line
            invariant
                line <= lc.line,
                p <= s.len(),
                s == self@,
                self.wf(),
                lc.line <= newline_count(s, s.len() as int),
                line == newline_count(s, p as int),
                line == lc.line ==> is_line_start(s, p as int, line as int),
            decreases s.len() - p,
        {
            proof {
                if p == s.len() {
                    assert(false);
                }
                lemma_newline_count_bounds(s, p + 1);
            }
            let b = self.text[p];
            if b == 0x0A {
                line = line + 1;
            }
            p = p + 1;
        }
        proof {
            lemma_line_start_of_is_line_start(s, lc.line as int);
            lemma_line_start_unique(s, p as int, line_start_of(s, lc.line as int), lc.line as int);
        }

        // Advance by `lc.col_utf16` UTF-16 units.
        let ls = p;
        let mut acc: u32 = 0;
        let ghost col = lc.col_utf16 as int;
        let ghost eol = end_of_line_from(s, ls as int);
        while acc < lc.col_utf16
            invariant
                ls <= p <= s.len() <= 0x7FFF_FFFF,
                s == self@,
                acc == utf16_len(s, ls as int, p as int),
                col == lc.col_utf16 as int,
                col <= utf16_len(s, ls as int, eol),
                eol == end_of_line_from(s, ls as int),
                advance_to_col(s, ls as int, col) == advance_to_col(s, p as int, col - acc),
            decreases s.len() - p,
        {
            proof {
                lemma_end_of_line_bounds(s, ls as int);
                if p as int >= eol {
                    lemma_utf16_len_additive(s, ls as int, eol, p as int);
                    lemma_utf16_len_nonneg(s, eol, p as int);
                    assert(acc >= col);
                }
                lemma_utf16_len_le_double(s, ls as int, p + 1);
            }
            let b = self.text[p];
            acc = acc + byte_utf16_units(b);
            p = p + 1;
        }

        // Skip to the next character boundary.
        let ghost rem = col - acc as int;
        while p < n && !byte_is_char_start(self.text[p])
            invariant
                ls <= p <= s.len(),
                n == s.len(),
                s == self@,
                rem <= 0,
                advance_to_col(s, ls as int, col) == advance_to_col(s, p as int, rem),
            decreases s.len() - p,
        {
            p = p + 1;
        }
        p
    }

    /// Convert a position to a byte offset after checking that it lies
    /// within the document, reporting an out-of-bounds position instead of
    /// requiring the caller to have checked.
    pub fn checked_offset(&self, lc: LineCol) -> (r: Option<usize>)
        requires
            self.wf(),
        ensures
            match r {
                Some(o) => {
                    &&& position_in_bounds(self@, lc.line as int, lc.col_utf16 as int)
                    &&& o == offset_of(self@, lc.line as int, lc.col_utf16 as int)
                    &&& o <= self@.len()
                },
                None => !position_in_bounds(self@, lc.line as int, lc.col_utf16 as int),
            },
    {
        let ghost s = self@;
        let n = self.text.len();

        let mut p: usize = 0;
        let mut line: u32 = 0;
        while line < lc.line && p < n
            invariant
                line <= lc.line,
                p <= s.len() <= 0x7FFF_FFFF,
                n == s.len(),
                s == self@,
                line == newline_count(s, p as int),
                line == lc.line ==> is_line_start(s, p as int, line as int),
            decreases s.len() - p,
        {
            proof {
                lemma_newline_count_bounds(s, p + 1);
            }
            let b = self.text[p];
            if b == 0x0A {
                line = line + 1;
            }
            p = p + 1;
        }
        if line < lc.line {
            proof {
                assert(p == n);
            }
            return None;
        }
        proof {
            lemma_newline_count_mono(s, p as int, s.len() as int);
        }
        let ls = p;
        let mut q: usize = ls;
        let mut total: u32 = 0;
        while q < n && self.text[q] != 0x0A
            invariant
                ls <= q <= s.len() <= 0x7FFF_FFFF,
                n == s.len(),
                s == self@,
                total == utf16_len(s, ls as int, q as int),
                end_of_line_from(s, ls as int) == end_of_line_from(s, q as int),
            decreases s.len() - q,
        {
            proof {
                lemma_utf16_len_le_double(s, ls as int, q + 1);
            }
            total = total + byte_utf16_units(self.text[q]);
            q = q + 1;
        }
        proof {
            assert(end_of_line_from(s, q as int) == q as int);
            assert(is_line_start(s, ls as int, lc.line as int));
            lemma_line_start_of_is_line_start(s, lc.line as int);
            lemma_line_start_unique(s, ls as int, line_start_of(s, lc.line as int), lc.line as int);
        }
        if lc.col_utf16 > total {
            return None;
        }
        Some(self.offset(lc))
    }
}

/// Executable mirror of [`is_char_start`].
pub fn byte_is_char_start(b: u8) -> (r: bool)
    ensures
        r == is_char_start(b),
{
    b < 0x80 || b >= 0xC0
}

/// Executable mirror of [`utf16_units`].
pub fn byte_utf16_units(b: u8) -> (r: u32)
    ensures
        r as int == utf16_units(b),
{
    if b < 0x80 {
        1
    } else if b < 0xC0 {
        0
    } else if b < 0xF0 {
        1
    } else {
        2
    }
}

/// Line numbers never exceed the offset they are counted at.
pub proof fn lemma_newline_count_bounds(s: Seq<u8>, to: int)
    requires
        to >= 0,
    ensures
        0 <= newline_count(s, to) <= to,
    decreases to,
{
    if to > 0 {
        lemma_newline_count_bounds(s, to - 1);
    }
}

/// Line numbers grow with the offset.
pub proof fn lemma_newline_count_mono(s: Seq<u8>, a: int, b: int)
    requires
        0 <= a <= b,
    ensures
        newline_count(s, a) <= newline_count(s, b),
    decreases b - a,
{
    if a < b {
        lemma_newline_count_mono(s, a, b - 1);
    }
}

/// A stretch without line terminators stays on one line.
pub proof fn lemma_newline_count_stable(s: Seq<u8>, a: int, b: int)
    requires
        0 <= a <= b,
        forall|q: int| a <= q < b ==> s[q] != 0x0A,
    ensures
        newline_count(s, b) == newline_count(s, a),
    decreases b - a,
{
    if a < b {
        lemma_newline_count_stable(s, a, b - 1);
    }
}

/// UTF-16 lengths are non-negative.
pub proof fn lemma_utf16_len_nonneg(s: Seq<u8>, from: int, to: int)
    ensures
        utf16_len(s, from, to) >= 0,
    decreases to - from,
{
    if to > from {
        lemma_utf16_len_nonneg(s, from, to - 1);
    }
}

/// No byte contributes more than two UTF-16 code units.
pub proof fn lemma_utf16_len_le_double(s: Seq<u8>, from: int, to: int)
    requires
        from <= to,
    ensures
        utf16_len(s, from, to) <= 2 * (to - from),
    decreases to - from,
{
    if to > from {
        lemma_utf16_len_le_double(s, from, to - 1);
    }
}

/// UTF-16 lengths add over adjacent spans.
pub proof fn lemma_utf16_len_additive(s: Seq<u8>, a: int, b: int, c: int)
    requires
        a <= b <= c,
    ensures
        utf16_len(s, a, c) == utf16_len(s, a, b) + utf16_len(s, b, c),
    decreases c - b,
{
    if b < c {
        lemma_utf16_len_additive(s, a, b, c - 1);
    }
}

/// Peeling the first byte off a span of UTF-16 units.
pub proof fn lemma_utf16_len_unfold_left(s: Seq<u8>, from: int, to: int)
    requires
        from < to,
    ensures
        utf16_len(s, from, to) == utf16_units(s[from]) + utf16_len(s, from + 1, to),
{
    assert(utf16_len(s, from, from) == 0);
    assert(utf16_len(s, from, from + 1) == utf16_units(s[from]));
    lemma_utf16_len_additive(s, from, from + 1, to);
}

/// Where a line ends: at or after its start, at a terminator or the
/// document's end, with no terminator in between.
pub proof fn lemma_end_of_line_bounds(s: Seq<u8>, p: int)
    requires
        0 <= p <= s.len(),
    ensures
        p <= end_of_line_from(s, p) <= s.len(),
        end_of_line_from(s, p) < s.len() ==> s[end_of_line_from(s, p)] == 0x0A,
        forall|q: int| p <= q < end_of_line_from(s, p) ==> s[q] != 0x0A,
    decreases s.len() - p,
{
    if p < s.len() && s[p] != 0x0A {
        lemma_end_of_line_bounds(s, p + 1);
    }
}

/// A terminator-free stretch ending at `b` keeps the line's end at or past `b`.
pub proof fn lemma_end_of_line_at_least(s: Seq<u8>, p: int, b: int)
    requires
        0 <= p <= b <= s.len(),
        forall|q: int| p <= q < b ==> s[q] != 0x0A,
    ensures
        end_of_line_from(s, p) >= b,
    decreases b - p,
{
    if p < b {
        assert(s[p] != 0x0A);
        lemma_end_of_line_at_least(s, p + 1, b);
    } else {
        lemma_end_of_line_bounds(s, p);
    }
}

/// The start of the line containing `o` is a line start of `o`'s line, and
/// no terminator lies between it and `o`.
pub proof fn lemma_start_of_line_containing(s: Seq<u8>, o: int)
    requires
        0 <= o <= s.len(),
    ensures
        is_line_start(s, start_of_line_containing(s, o), newline_count(s, o)),
        start_of_line_containing(s, o) <= o,
        forall|q: int| start_of_line_containing(s, o) <= q < o ==> s[q] != 0x0A,
    decreases o,
{
    if o > 0 && s[o - 1] != 0x0A {
        lemma_start_of_line_containing(s, o - 1);
        lemma_newline_count_stable(s, o - 1, o);
        assert(forall|q: int| start_of_line_containing(s, o) <= q < o ==> s[q] != 0x0A) by {
            assert(forall|q: int|
                start_of_line_containing(s, o - 1) <= q < o - 1 ==> s[q] != 0x0A);
        }
    }
}

/// Two starts of the same line are the same offset.
pub proof fn lemma_line_start_unique(s: Seq<u8>, p1: int, p2: int, l: int)
    requires
        is_line_start(s, p1, l),
        is_line_start(s, p2, l),
    ensures
        p1 == p2,
{
    if p1 < p2 {
        lemma_newline_count_mono(s, p1, p2 - 1);
        assert(newline_count(s, p2) == newline_count(s, p2 - 1) + 1);
    } else if p2 < p1 {
        lemma_newline_count_mono(s, p2, p1 - 1);
        assert(newline_count(s, p1) == newline_count(s, p1 - 1) + 1);
    }
}

/// For every existing line, `line_start_of` names its start.
pub proof fn lemma_line_start_of_is_line_start(s: Seq<u8>, l: int)
    requires
        0 <= l <= newline_count(s, s.len() as int),
    ensures
        is_line_start(s, line_start_of(s, l), l),
    decreases l,
{
    if l > 0 {
        lemma_line_start_of_is_line_start(s, l - 1);
        let p = line_start_of(s, l - 1);
        let e = end_of_line_from(s, p);
        lemma_end_of_line_bounds(s, p);
        lemma_newline_count_stable(s, p, e);
        if e == s.len() {
            assert(newline_count(s, s.len() as int) == l - 1);
        } else {
            assert(newline_count(s, e + 1) == newline_count(s, e) + 1);
        }
    }
}

/// Advancing from `p` by exactly the UTF-16 units up to a boundary `o`
/// lands on `o`.
proof fn lemma_advance_exact(s: Seq<u8>, p: int, o: int)
    requires
        0 <= p <= o,
        is_boundary(s, o),
    ensures
        advance_to_col(s, p, utf16_len(s, p, o)) == o,
    decreases o - p,
{
    lemma_utf16_len_nonneg(s, p, o);
    if p == o {
        if o < s.len() {
            assert(is_char_start(s[o]));
        }
    } else {
        lemma_utf16_len_unfold_left(s, p, o);
        lemma_utf16_len_nonneg(s, p + 1, o);
        lemma_advance_exact(s, p + 1, o);
    }
}

/// What the position-to-offset walk lands on, characterized without the
/// walk: from `p` with `col` units to pass, it reaches the least offset at
/// or past `p` that is a character boundary and has absorbed at least
/// `col` units.
proof fn lemma_advance_characterization(s: Seq<u8>, p: int, col: int)
    requires
        0 <= p <= s.len(),
        col <= utf16_len(s, p, s.len() as int),
    ensures
        p <= advance_to_col(s, p, col) <= s.len(),
        is_boundary(s, advance_to_col(s, p, col)),
        utf16_len(s, p, advance_to_col(s, p, col)) >= col,
        forall|q: int|
            p <= q < advance_to_col(s, p, col) && is_boundary(s, q) ==> utf16_len(s, p, q) < col,
    decreases s.len() - p,
{
    let r = advance_to_col(s, p, col);
    if p == s.len() {
        lemma_utf16_len_nonneg(s, p, s.len() as int);
    } else if col <= 0 && is_char_start(s[p]) {
    } else {
        lemma_utf16_len_unfold_left(s, p, s.len() as int);
        lemma_advance_characterization(s, p + 1, col - utf16_units(s[p]));
        assert forall|q: int| p <= q < r && is_boundary(s, q) implies utf16_len(s, p, q)
            < col by {
            if q > p {
                lemma_utf16_len_unfold_left(s, p, q);
            }
        }
        lemma_utf16_len_unfold_left(s, p, r);
    }
}

/// The offset of a position is the least character boundary in its line
/// that has absorbed the position's column: the statement of what
/// [`offset_of`] means, independent of how the walk proceeds. The offset
/// never leaves the line.
pub proof fn lemma_offset_of_least_boundary(s: Seq<u8>, line: int, col: int)
    requires
        position_in_bounds(s, line, col),
    ensures
        line_start_of(s, line) <= offset_of(s, line, col) <= end_of_line_from(
            s, line_start_of(s, line)),
        is_boundary(s, offset_of(s, line, col)),
        utf16_len(s, line_start_of(s, line), offset_of(s, line, col)) >= col,
        forall|q: int|
            line_start_of(s, line) <= q < offset_of(s, line, col) && is_boundary(s, q)
                ==> utf16_len(s, line_start_of(s, line), q) < col,
{
    let ls = line_start_of(s, line);
    let eol = end_of_line_from(s, ls);
    let r = offset_of(s, line, col);
    lemma_line_start_of_is_line_start(s, line);
    lemma_end_of_line_bounds(s, ls);
    lemma_utf16_len_additive(s, ls, eol, s.len() as int);
    lemma_utf16_len_nonneg(s, eol, s.len() as int);
    lemma_advance_characterization(s, ls, col);
    // The walk cannot pass the line's end: the end is itself a boundary
    // that has absorbed the whole column.
    if r > eol {
        assert(is_boundary(s, eol));
        assert(utf16_len(s, ls, eol) < col);
    }
}

/// Line starts do not move backwards as the line number grows.
pub proof fn lemma_line_start_of_mono(s: Seq<u8>, l1: int, l2: int)
    requires
        0 <= l1 <= l2 <= newline_count(s, s.len() as int),
    ensures
        line_start_of(s, l1) <= line_start_of(s, l2),
    decreases l2 - l1,
{
    if l1 < l2 {
        lemma_line_start_of_mono(s, l1, l2 - 1);
        lemma_line_start_of_is_line_start(s, l2 - 1);
        lemma_end_of_line_bounds(s, line_start_of(s, l2 - 1));
    }
}

/// Positions in document order convert to byte offsets in document order:
/// the reverse direction of the lexicographic monotonicity.
pub proof fn lemma_offset_of_lex_mono(s: Seq<u8>, l1: int, c1: int, l2: int, c2: int)
    requires
        position_in_bounds(s, l1, c1),
        position_in_bounds(s, l2, c2),
        l1 < l2 || (l1 == l2 && c1 <= c2),
    ensures
        offset_of(s, l1, c1) <= offset_of(s, l2, c2),
{
    lemma_offset_of_least_boundary(s, l1, c1);
    lemma_offset_of_least_boundary(s, l2, c2);
    let r1 = offset_of(s, l1, c1);
    let r2 = offset_of(s, l2, c2);
    if l1 == l2 {
        if r1 > r2 {
            // `r2` would be a boundary short of `c1` units, yet it has
            // absorbed `c2 >= c1` of them.
            assert(utf16_len(s, line_start_of(s, l1), r2) < c1);
            assert(false);
        }
    } else {
        // The first offset stays within its line, which ends before the
        // second line starts.
        assert(line_start_of(s, l1 + 1) == end_of_line_from(s, line_start_of(s, l1)) + 1);
        lemma_line_start_of_mono(s, l1 + 1, l2);
    }
}

/// Round trip: a character-boundary offset, converted to a position and
/// back, is returned unchanged, and the intermediate position lies within
/// the document. Holds for any byte sequence, including multi-byte and
/// surrogate-pair characters.
pub proof fn lemma_offset_position_round_trip(s: Seq<u8>, o: int)
    requires
        is_boundary(s, o),
    ensures
        position_in_bounds(s, newline_count(s, o), col_of(s, o)),
        offset_of(s, newline_count(s, o), col_of(s, o)) == o,
{
    let l = newline_count(s, o);
    let ls = start_of_line_containing(s, o);
    lemma_start_of_line_containing(s, o);
    lemma_newline_count_mono(s, o, s.len() as int);
    lemma_newline_count_bounds(s, o);
    lemma_line_start_of_is_line_start(s, l);
    lemma_line_start_unique(s, ls, line_start_of(s, l), l);
    // The column fits within the line.
    let e = end_of_line_from(s, ls);
    lemma_end_of_line_at_least(s, ls, o);
    lemma_end_of_line_bounds(s, ls);
    lemma_utf16_len_additive(s, ls, o, e);
    lemma_utf16_len_nonneg(s, o, e);
    lemma_utf16_len_nonneg(s, ls, o);
    // Advancing by the column lands back on `o`.
    lemma_advance_exact(s, ls, o);
}

/// Positions grow lexicographically with offsets: converting the two ends
/// of a forward range never yields a backward position pair.
pub proof fn lemma_position_lex_mono(s: Seq<u8>, o1: int, o2: int)
    requires
        0 <= o1 <= o2 <= s.len(),
    ensures
        newline_count(s, o1) <= newline_count(s, o2),
        newline_count(s, o1) == newline_count(s, o2) ==> col_of(s, o1) <= col_of(s, o2),
{
    lemma_newline_count_mono(s, o1, o2);
    if newline_count(s, o1) == newline_count(s, o2) {
        lemma_start_of_line_containing(s, o2);
        let ls2 = start_of_line_containing(s, o2);
        if ls2 <= o1 {
            assert(forall|q: int| ls2 <= q < o1 ==> s[q] != 0x0A);
            lemma_start_of_line_containing(s, o1);
            lemma_newline_count_stable(s, ls2, o1);
            lemma_line_start_unique(s, ls2, start_of_line_containing(s, o1),
                newline_count(s, o1));
            lemma_utf16_len_additive(s, ls2, o1, o2);
            lemma_utf16_len_nonneg(s, o1, o2);
        } else {
            // The start of `o2`'s line cannot lie strictly past `o1` when
            // both offsets are on the same line.
            lemma_newline_count_mono(s, o1, ls2 - 1);
            assert(newline_count(s, ls2) == newline_count(s, ls2 - 1) + 1);
            lemma_newline_count_mono(s, ls2, o2);
        }
    }
}

} // verus!
