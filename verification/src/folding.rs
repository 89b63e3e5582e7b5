//! The folding adapter: converts the engine's fold regions into protocol
//! folding ranges, with a degeneration mode for clients that can only fold
//! whole lines.

use vstd::prelude::*;

use crate::edits::position_at;
use crate::line_index::{
    byte_is_char_start, end_of_line_from, is_char_start, lemma_newline_count_bounds,
    newline_count, LineIndex,
};
use crate::protocol::{FoldingRange, FoldingRangeKind};
use crate::text::TextRange;

verus! {

/// The engine's classification of a collapsible region.
#[derive(Clone, Copy, Debug, PartialEq, Eq, Structural)]
pub enum FoldKind {
    Comment,
    Imports,
    Mods,
    Block,
}

/// A collapsible region of the document.
#[derive(Clone, Copy, Debug, PartialEq, Eq, Structural)]
pub struct Fold {
    pub range: TextRange,
    pub kind: FoldKind,
}

/// The protocol tag for a fold kind: only comments and import blocks carry
/// one; module groups and generic blocks fold untagged.
pub open spec fn protocol_fold_kind(k: FoldKind) -> Option<FoldingRangeKind> {
    match k {
        FoldKind::Comment => Some(FoldingRangeKind::Comment),
        FoldKind::Imports => Some(FoldingRangeKind::Imports),
        FoldKind::Mods => None,
        FoldKind::Block => None,
    }
}

/// The character whose UTF-8 encoding starts at offset `p` is whitespace,
/// read off its encoded bytes. These are the characters with the Unicode
/// `White_Space` property (the line feed itself ends the scan that asks):
/// the ASCII blanks, next line, no-break space, ogham space mark, the
/// en-quad..hair-space run, line and paragraph separator, narrow no-break
/// space, medium mathematical space, and the ideographic space.
pub open spec fn is_blank_char_at(s: Seq<u8>, p: int) -> bool {
    ||| s[p] == 0x20 || s[p] == 0x09 || s[p] == 0x0A || s[p] == 0x0B || s[p] == 0x0C || s[p]
        == 0x0D
    ||| (s[p] == 0xC2 && p + 1 < s.len() && (s[p + 1] == 0x85 || s[p + 1] == 0xA0))
    ||| (s[p] == 0xE1 && p + 2 < s.len() && s[p + 1] == 0x9A && s[p + 2] == 0x80)
    ||| (s[p] == 0xE2 && p + 2 < s.len() && s[p + 1] == 0x80 && (0x80 <= s[p + 2] <= 0x8A || s[p
        + 2] == 0xA8 || s[p + 2] == 0xA9 || s[p + 2] == 0xAF))
    ||| (s[p] == 0xE2 && p + 2 < s.len() && s[p + 1] == 0x81 && s[p + 2] == 0x9F)
    ||| (s[p] == 0xE3 && p + 2 < s.len() && s[p + 1] == 0x80 && s[p + 2] == 0x80)
}

/// Some character after offset `from` on the same line is not whitespace.
pub open spec fn trailing_content(s: Seq<u8>, from: int) -> bool {
    exists|p: int|
        from <= p < end_of_line_from(s, from) && is_char_start(s[p]) && !is_blank_char_at(s, p)
}

/// The end line a line-granularity client is given: one less than the
/// computed end line when code follows the fold on that line (so the line
/// is not swallowed whole), except that line zero cannot retract.
pub open spec fn degraded_end_line(s: Seq<u8>, fold_end: int) -> int {
    let l = newline_count(s, fold_end);
    if trailing_content(s, fold_end) && l > 0 {
        l - 1
    } else {
        l
    }
}

/// The protocol folding range for `fold` over document `s`: exact lines
/// and columns in full-range mode, line-only degeneration otherwise.
pub open spec fn folding_range_of(s: Seq<u8>, fold: Fold, line_folding_only: bool) -> FoldingRange {
    let start = position_at(s, fold.range.start as int);
    let end = position_at(s, fold.range.end as int);
    if line_folding_only {
        FoldingRange {
            start_line: start.line,
            start_character: None,
            end_line: degraded_end_line(s, fold.range.end as int) as u32,
            end_character: None,
            kind: protocol_fold_kind(fold.kind),
        }
    } else {
        FoldingRange {
            start_line: start.line,
            start_character: Some(start.character),
            end_line: end.line,
            end_character: Some(end.character),
            kind: protocol_fold_kind(fold.kind),
        }
    }
}

/// Executable mirror of [`is_blank_char_at`].
fn blank_char_at(index: &LineIndex, p: usize) -> (r: bool)
    requires
        p < index@.len(),
    ensures
        r == is_blank_char_at(index@, p as int),
{
    let n = index.len();
    let b = index.byte_at(p);
    if b == 0x20 || b == 0x09 || b == 0x0A || b == 0x0B || b == 0x0C || b == 0x0D {
        return true;
    }
    if b == 0xC2 {
        if p + 1 < n {
            let b1 = index.byte_at(p + 1);
            return b1 == 0x85 || b1 == 0xA0;
        }
        return false;
    }
    if b == 0xE1 {
        if n - p > 2 {
            return index.byte_at(p + 1) == 0x9A && index.byte_at(p + 2) == 0x80;
        }
        return false;
    }
    if b == 0xE2 {
        if n - p > 2 {
            let b1 = index.byte_at(p + 1);
            let b2 = index.byte_at(p + 2);
            return (b1 == 0x80 && (0x80 <= b2 && b2 <= 0x8A || b2 == 0xA8 || b2 == 0xA9 || b2
                == 0xAF)) || (b1 == 0x81 && b2 == 0x9F);
        }
        return false;
    }
    if b == 0xE3 {
        if n - p > 2 {
            return index.byte_at(p + 1) == 0x80 && index.byte_at(p + 2) == 0x80;
        }
        return false;
    }
    false
}

/// Whether any non-whitespace character follows `from` before the next
/// line feed.
pub fn has_trailing_content(index: &LineIndex, from: usize) -> (r: bool)
    requires
        from <= index@.len(),
    ensures
        r == trailing_content(index@, from as int),
{
    let ghost s = index@;
    let n = index.len();
    let mut p = from;
    while p < n
        invariant
            from <= p <= n == s.len(),
            s == index@,
            end_of_line_from(s, from as int) == end_of_line_from(s, p as int),
            forall|q: int|
                from <= q < p && is_char_start(s[q]) ==> is_blank_char_at(s, q),
        decreases n - p,
    {
        let b = index.byte_at(p);
        if b == 0x0A {
            proof {
                assert(end_of_line_from(s, p as int) == p as int);
            }
            return false;
        }
        if byte_is_char_start(b) && !blank_char_at(index, p) {
            proof {
                crate::line_index::lemma_end_of_line_at_least(s, p as int, p + 1);
                assert(from <= p < end_of_line_from(s, from as int) && is_char_start(s[p as int])
                    && !is_blank_char_at(s, p as int));
            }
            return true;
        }
        p = p + 1;
    }
    proof {
        assert(end_of_line_from(s, p as int) == p as int);
    }
    false
}

/// Convert one fold. In full-range mode the protocol range is exactly the
/// converted range, columns included; in line-only mode columns are
/// omitted and the end line retracts by one when non-blank text follows
/// the fold's end on its line.
pub fn to_folding_range(fold: &Fold, index: &LineIndex, line_folding_only: bool) -> (r:
    FoldingRange)
    requires
        index.wf(),
        fold.range.in_bounds(index@.len() as int),
    ensures
        r == folding_range_of(index@, *fold, line_folding_only),
{
    let kind = match fold.kind {
        FoldKind::Comment => Some(FoldingRangeKind::Comment),
        FoldKind::Imports => Some(FoldingRangeKind::Imports),
        FoldKind::Mods => None,
        FoldKind::Block => None,
    };
    let range = crate::edits::range_to_pos_range(index, fold.range);
    if line_folding_only {
        let has_more = has_trailing_content(index, fold.range.end);
        let end_line = if has_more && range.end.line > 0 {
            range.end.line - 1
        } else {
            range.end.line
        };
        proof {
            lemma_newline_count_bounds(index@, fold.range.end as int);
        }
        FoldingRange {
            start_line: range.start.line,
            start_character: None,
            end_line,
            end_character: None,
            kind,
        }
    } else {
        FoldingRange {
            start_line: range.start.line,
            start_character: Some(range.start.character),
            end_line: range.end.line,
            end_character: Some(range.end.character),
            kind,
        }
    }
}

/// Degeneration is idempotent where nothing follows the fold on its end
/// line: the line-only end line equals the full-range end line.
pub proof fn lemma_degeneration_keeps_end_line(s: Seq<u8>, fold: Fold)
    requires
        s.len() <= 0x7FFF_FFFF,
        fold.range.in_bounds(s.len() as int),
        !trailing_content(s, fold.range.end as int),
    ensures
        folding_range_of(s, fold, true).end_line == folding_range_of(s, fold, false).end_line,
{
    lemma_newline_count_bounds(s, fold.range.end as int);
}

/// Degeneration retracts by exactly one line where non-blank content
/// follows the fold on its end line — except a fold ending on line zero,
/// which has no earlier line to retract to.
pub proof fn lemma_degeneration_shrinks_end_line(s: Seq<u8>, fold: Fold)
    requires
        s.len() <= 0x7FFF_FFFF,
        fold.range.in_bounds(s.len() as int),
        trailing_content(s, fold.range.end as int),
        newline_count(s, fold.range.end as int) > 0,
    ensures
        folding_range_of(s, fold, true).end_line + 1 == folding_range_of(s, fold,
            false).end_line,
{
    lemma_newline_count_bounds(s, fold.range.end as int);
}

} // verus!
