//! The edit translator: turns the engine's atomic delete/insert edits into
//! protocol edits, and restructures a completion's edit set into the single
//! primary edit plus additional edits the protocol requires.

use vstd::prelude::*;

use crate::line_index::{
    col_of, lemma_newline_count_bounds, lemma_utf16_len_le_double,
    lemma_start_of_line_containing, newline_count, LineIndex,
};
use crate::protocol::{PosRange, Position, TextEdit};
use crate::text::{AtomTextEdit, LineEndings, TextRange};
use crate::ConvError;

verus! {

/// The mathematical shape of an atomic edit: its delete span and the
/// sequence of inserted bytes.
pub struct AtomEditView {
    pub delete: TextRange,
    pub insert: Seq<u8>,
}

impl View for AtomTextEdit {
    type V = AtomEditView;

    open spec fn view(&self) -> AtomEditView {
        AtomEditView { delete: self.delete, insert: self.insert@ }
    }
}

/// The views of a sequence of atomic edits.
pub open spec fn views_of(edits: Seq<AtomTextEdit>) -> Seq<AtomEditView> {
    edits.map_values(|a: AtomTextEdit| a@)
}

/// `s` with every bare line feed replaced by carriage return + line feed;
/// a line feed already preceded by a carriage return is kept as it is.
pub open spec fn dos_encode(s: Seq<u8>) -> Seq<u8>
    decreases s.len(),
{
    if s.len() == 0 {
        Seq::<u8>::empty()
    } else if s[0] == 0x0A {
        seq![0x0Du8, 0x0Au8] + dos_encode(s.skip(1))
    } else if s[0] == 0x0D && s.len() >= 2 && s[1] == 0x0A {
        seq![0x0Du8, 0x0Au8] + dos_encode(s.skip(2))
    } else {
        seq![s[0]] + dos_encode(s.skip(1))
    }
}

/// Inserted text adjusted to the document's line-ending convention.
pub open spec fn normalized(s: Seq<u8>, endings: LineEndings) -> Seq<u8> {
    match endings {
        LineEndings::Unix => s,
        LineEndings::Dos => dos_encode(s),
    }
}

/// The protocol position of byte offset `o` in document `s`.
pub open spec fn position_at(s: Seq<u8>, o: int) -> Position {
    Position { line: newline_count(s, o) as u32, character: col_of(s, o) as u32 }
}

/// The protocol range of byte range `r` in document `s`.
pub open spec fn pos_range_of(s: Seq<u8>, r: TextRange) -> PosRange {
    PosRange { start: position_at(s, r.start as int), end: position_at(s, r.end as int) }
}

/// `te` is the faithful protocol translation of the atomic edit `a`.
pub open spec fn translated(s: Seq<u8>, a: AtomEditView, endings: LineEndings, te: TextEdit) -> bool {
    &&& te.range == pos_range_of(s, a.delete)
    &&& te.new_text@ == normalized(a.insert, endings)
}

/// Convert a byte offset through the index into a protocol position.
pub fn offset_to_position(index: &LineIndex, offset: usize) -> (r: Position)
    requires
        index.wf(),
        offset <= index@.len(),
    ensures
        r == position_at(index@, offset as int),
        r.line as int == newline_count(index@, offset as int),
        r.character as int == col_of(index@, offset as int),
{
    proof {
        lemma_newline_count_bounds(index@, offset as int);
        lemma_start_of_line_containing(index@, offset as int);
        lemma_utf16_len_le_double(
            index@,
            crate::line_index::start_of_line_containing(index@, offset as int),
            offset as int,
        );
    }
    let lc = index.line_col(offset);
    Position { line: lc.line, character: lc.col_utf16 }
}

/// Convert a byte range through the index into a protocol range. The
/// resulting positions are in document order whenever the range is.
pub fn range_to_pos_range(index: &LineIndex, r: TextRange) -> (pr: PosRange)
    requires
        index.wf(),
        r.in_bounds(index@.len() as int),
    ensures
        pr == pos_range_of(index@, r),
        pr.start.lex_le(pr.end),
{
    proof {
        crate::line_index::lemma_position_lex_mono(index@, r.start as int, r.end as int);
        lemma_newline_count_bounds(index@, r.start as int);
        lemma_newline_count_bounds(index@, r.end as int);
        lemma_start_of_line_containing(index@, r.start as int);
        lemma_utf16_len_le_double(
            index@,
            crate::line_index::start_of_line_containing(index@, r.start as int),
            r.start as int,
        );
        lemma_start_of_line_containing(index@, r.end as int);
        lemma_utf16_len_le_double(
            index@,
            crate::line_index::start_of_line_containing(index@, r.end as int),
            r.end as int,
        );
    }
    let start = offset_to_position(index, r.start);
    let end = offset_to_position(index, r.end);
    PosRange { start, end }
}

/// Convert a protocol position back to a byte offset through the index.
pub fn position_to_offset(index: &LineIndex, pos: Position) -> (r: usize)
    requires
        index.wf(),
        crate::line_index::position_in_bounds(index@, pos.line as int, pos.character as int),
    ensures
        r == crate::line_index::offset_of(index@, pos.line as int, pos.character as int),
        r <= index@.len(),
{
    index.offset(crate::line_index::LineCol { line: pos.line, col_utf16: pos.character })
}

/// Convert a protocol range back to a byte range through the index. The
/// positions must be in document order; the byte range then is too.
pub fn pos_range_to_range(index: &LineIndex, pr: PosRange) -> (r: TextRange)
    requires
        index.wf(),
        crate::line_index::position_in_bounds(index@, pr.start.line as int,
            pr.start.character as int),
        crate::line_index::position_in_bounds(index@, pr.end.line as int,
            pr.end.character as int),
        pr.start.lex_le(pr.end),
    ensures
        r.start == crate::line_index::offset_of(index@, pr.start.line as int,
            pr.start.character as int),
        r.end == crate::line_index::offset_of(index@, pr.end.line as int,
            pr.end.character as int),
        r.wf(),
{
    proof {
        crate::line_index::lemma_offset_of_lex_mono(
            index@,
            pr.start.line as int,
            pr.start.character as int,
            pr.end.line as int,
            pr.end.character as int,
        );
    }
    let start = position_to_offset(index, pr.start);
    let end = position_to_offset(index, pr.end);
    TextRange { start, end }
}

/// A byte-for-byte copy of `v`.
pub fn clone_bytes(v: &Vec<u8>) -> (r: Vec<u8>)
    ensures
        r@ == v@,
{
    let mut out: Vec<u8> = Vec::new();
    let mut i: usize = 0;
    while i < v.len()
        invariant
            i <= v@.len(),
            out@ == v@.take(i as int),
        decreases v@.len() - i,
    {
        out.push(v[i]);
        proof {
            assert(out@ =~= v@.take(i + 1));
        }
        i = i + 1;
    }
    proof {
        assert(v@.take(v@.len() as int) =~= v@);
    }
    out
}

/// Rewrite the inserted text's line terminators to the document's
/// convention: for carriage-return documents every bare line feed becomes
/// the two-byte terminator (terminators already two bytes long stay as
/// they are), otherwise the text is kept as it is.
pub fn normalize_line_endings(insert: &Vec<u8>, endings: LineEndings) -> (r: Vec<u8>)
    ensures
        r@ == normalized(insert@, endings),
{
    match endings {
        LineEndings::Unix => clone_bytes(insert),
        LineEndings::Dos => {
            let ghost s = insert@;
            let mut out: Vec<u8> = Vec::new();
            let mut i: usize = 0;
            proof {
                assert(s.skip(0) =~= s);
                assert(out@ + dos_encode(s) =~= dos_encode(s));
            }
            while i < insert.len()
                invariant
                    i <= s.len(),
                    s == insert@,
                    dos_encode(s) == out@ + dos_encode(s.skip(i as int)),
                decreases s.len() - i,
            {
                let b = insert[i];
                proof {
                    let tail = s.skip(i as int);
                    assert(tail.len() == s.len() - i);
                    assert(tail[0] == s[i as int]);
                    if i + 1 < s.len() {
                        assert(tail[1] == s[i + 1]);
                    }
                    assert(tail.skip(1) =~= s.skip(i + 1));
                }
                if b == 0x0A {
                    out.push(0x0D);
                    out.push(0x0A);
                    proof {
                        assert(out@ == (out@.subrange(0, out@.len() - 2)
                            + seq![0x0Du8, 0x0Au8]));
                        assert(dos_encode(s) == out@ + dos_encode(s.skip(i + 1)));
                    }
                    i = i + 1;
                } else if b == 0x0D && i + 1 < insert.len() && insert[i + 1] == 0x0A {
                    out.push(0x0D);
                    out.push(0x0A);
                    proof {
                        assert(s.skip(i as int).skip(2) =~= s.skip(i + 2));
                        assert(out@ == (out@.subrange(0, out@.len() - 2)
                            + seq![0x0Du8, 0x0Au8]));
                        assert(dos_encode(s) == out@ + dos_encode(s.skip(i + 2)));
                    }
                    i = i + 2;
                } else {
                    out.push(b);
                    proof {
                        assert(dos_encode(s) == out@ + dos_encode(s.skip(i + 1)));
                    }
                    i = i + 1;
                }
            }
            proof {
                assert(s.skip(s.len() as int) =~= Seq::<u8>::empty());
                assert(dos_encode(s) =~= out@);
            }
            out
        },
    }
}

/// Translate one atomic edit: its delete range through the index, its
/// inserted text through the line-ending rewrite.
pub fn translate_atom_edit(
    atom: &AtomTextEdit,
    index: &LineIndex,
    endings: LineEndings,
) -> (r: TextEdit)
    requires
        index.wf(),
        atom.delete.in_bounds(index@.len() as int),
    ensures
        translated(index@, atom@, endings, r),
{
    let range = range_to_pos_range(index, atom.delete);
    let new_text = normalize_line_endings(&atom.insert, endings);
    TextEdit { range, new_text }
}

/// Translate a list of atomic edits in order, with no merging and no
/// overlap resolution.
pub fn translate_edits(
    edits: &Vec<AtomTextEdit>,
    index: &LineIndex,
    endings: LineEndings,
) -> (r: Vec<TextEdit>)
    requires
        index.wf(),
        forall|i: int|
            0 <= i < edits@.len() ==> (#[trigger] edits@[i]).delete.in_bounds(index@.len() as int),
    ensures
        r@.len() == edits@.len(),
        forall|i: int|
            0 <= i < edits@.len() ==> translated(index@, edits@[i]@, endings, #[trigger] r@[i]),
{
    let mut out: Vec<TextEdit> = Vec::new();
    let mut i: usize = 0;
    while i < edits.len()
        invariant
            i <= edits@.len(),
            index.wf(),
            forall|k: int|
                0 <= k < edits@.len() ==> (#[trigger] edits@[k]).delete.in_bounds(
                    index@.len() as int),
            out@.len() == i,
            forall|k: int|
                0 <= k < i ==> translated(index@, edits@[k]@, endings, #[trigger] out@[k]),
        decreases edits@.len() - i,
    {
        let te = translate_atom_edit(&edits[i], index, endings);
        out.push(te);
        i = i + 1;
    }
    out
}

/// A stepwise translator over a list of atomic edits: hands out the
/// protocol translation of each edit in input order.
pub struct ConvWithIter<'a> {
    edits: &'a Vec<AtomTextEdit>,
    index: &'a LineIndex,
    endings: LineEndings,
    pos: usize,
}

impl<'a> ConvWithIter<'a> {
    pub closed spec fn wf(&self) -> bool {
        &&& self.index.wf()
        &&& forall|i: int|
            0 <= i < self.edits@.len() ==> (#[trigger] self.edits@[i]).delete.in_bounds(
                self.index@.len() as int)
    }

    pub closed spec fn spec_edits(&self) -> Seq<AtomTextEdit> {
        self.edits@
    }

    pub closed spec fn spec_pos(&self) -> int {
        self.pos as int
    }

    pub closed spec fn spec_doc(&self) -> Seq<u8> {
        self.index@
    }

    pub closed spec fn spec_endings(&self) -> LineEndings {
        self.endings
    }

    pub fn new(edits: &'a Vec<AtomTextEdit>, index: &'a LineIndex, endings: LineEndings) -> (r:
        ConvWithIter<'a>)
        requires
            index.wf(),
            forall|i: int|
                0 <= i < edits@.len() ==> (#[trigger] edits@[i]).delete.in_bounds(
                    index@.len() as int),
        ensures
            r.wf(),
            r.spec_edits() == edits@,
            r.spec_pos() == 0,
            r.spec_doc() == index@,
            r.spec_endings() == endings,
    {
        ConvWithIter { edits, index, endings, pos: 0 }
    }

    /// The next translated edit, or nothing once the list is exhausted.
    pub fn next(&mut self) -> (r: Option<TextEdit>)
        requires
            old(self).wf(),
        ensures
            final(self).wf(),
            final(self).spec_edits() == old(self).spec_edits(),
            final(self).spec_doc() == old(self).spec_doc(),
            final(self).spec_endings() == old(self).spec_endings(),
            if old(self).spec_pos() < old(self).spec_edits().len() {
                &&& final(self).spec_pos() == old(self).spec_pos() + 1
                &&& r is Some
                &&& translated(old(self).spec_doc(), old(self).spec_edits()[old(self).spec_pos()]@,
                    old(self).spec_endings(), r->Some_0)
            } else {
                &&& final(self).spec_pos() == old(self).spec_pos()
                &&& r is None
            },
    {
        if self.pos < self.edits.len() {
            let te = translate_atom_edit(&self.edits[self.pos], self.index, self.endings);
            self.pos = self.pos + 1;
            Some(te)
        } else {
            None
        }
    }
}

/// The covering edit's delete range contains the whole source range.
pub open spec fn covers(a: AtomEditView, sr: TextRange) -> bool {
    a.delete.spec_contains_range(sr)
}

/// How many edits of `ds` cover the source range.
pub open spec fn covering_count(ds: Seq<AtomEditView>, sr: TextRange) -> int
    decreases ds.len(),
{
    if ds.len() == 0 {
        0
    } else {
        covering_count(ds.drop_last(), sr) + if covers(ds.last(), sr) { 1int } else { 0int }
    }
}

/// The inserted text of the last covering edit of `ds`.
pub open spec fn covering_insert(ds: Seq<AtomEditView>, sr: TextRange) -> Seq<u8>
    decreases ds.len(),
{
    if ds.len() == 0 {
        Seq::<u8>::empty()
    } else if covers(ds.last(), sr) {
        ds.last().insert
    } else {
        covering_insert(ds.drop_last(), sr)
    }
}

/// The empty-insertion edit that deletes the covering edit's head, up to
/// the start of the source range.
pub open spec fn prefix_edit(a: AtomEditView, sr: TextRange) -> AtomEditView {
    AtomEditView {
        delete: TextRange { start: a.delete.start, end: sr.start },
        insert: Seq::<u8>::empty(),
    }
}

/// The additional edits of a completion split, in input order: each
/// non-covering edit as it is; a covering edit replaced by its head when it
/// strictly contains the source range, and dropped when it equals it.
pub open spec fn additional_of(ds: Seq<AtomEditView>, sr: TextRange) -> Seq<AtomEditView>
    decreases ds.len(),
{
    if ds.len() == 0 {
        Seq::<AtomEditView>::empty()
    } else {
        let front = additional_of(ds.drop_last(), sr);
        let a = ds.last();
        if covers(a, sr) {
            if a.delete == sr {
                front
            } else {
                front.push(prefix_edit(a, sr))
            }
        } else {
            front.push(a)
        }
    }
}

/// The precondition the engine owes the completion split: exactly one edit
/// covers the source range, a covering edit shares its end, and every other
/// edit keeps clear of it (touching endpoints included).
pub open spec fn split_ok(ds: Seq<AtomEditView>, sr: TextRange) -> bool {
    &&& covering_count(ds, sr) == 1
    &&& forall|i: int|
        0 <= i < ds.len() && covers(#[trigger] ds[i], sr) ==> ds[i].delete.end == sr.end
    &&& forall|i: int|
        0 <= i < ds.len() && !covers(#[trigger] ds[i], sr) ==> !ds[i].delete.spec_touches(sr)
}

/// The two halves of a split completion edit set.
#[derive(Debug)]
pub struct CompletionSplit {
    pub primary: AtomTextEdit,
    pub additional: Vec<AtomTextEdit>,
}

proof fn lemma_covering_count_nonneg(ds: Seq<AtomEditView>, sr: TextRange)
    ensures
        covering_count(ds, sr) >= 0,
    decreases ds.len(),
{
    if ds.len() > 0 {
        lemma_covering_count_nonneg(ds.drop_last(), sr);
    }
}

/// Counting over a prefix never exceeds counting over the whole.
proof fn lemma_covering_count_prefix(ds: Seq<AtomEditView>, sr: TextRange, i: int)
    requires
        0 <= i <= ds.len(),
    ensures
        covering_count(ds.take(i), sr) <= covering_count(ds, sr),
    decreases ds.len() - i,
{
    if i < ds.len() {
        lemma_covering_count_prefix(ds, sr, i + 1);
        assert(ds.take(i + 1).drop_last() =~= ds.take(i));
        assert(ds.take(i + 1).last() == ds[i]);
        lemma_covering_count_nonneg(ds.take(i), sr);
    } else {
        assert(ds.take(i) =~= ds);
    }
}

/// No additional edit of a well-formed split shares a byte with the source
/// range: the law the protocol's completion shape rests on.
pub proof fn lemma_additional_no_overlap(ds: Seq<AtomEditView>, sr: TextRange)
    requires
        sr.wf(),
        forall|i: int|
            0 <= i < ds.len() && !covers(#[trigger] ds[i], sr) ==> !ds[i].delete.spec_touches(sr),
    ensures
        forall|j: int|
            0 <= j < additional_of(ds, sr).len() ==> !(#[trigger] additional_of(ds, sr)[j])
                .delete.spec_overlaps(sr),
    decreases ds.len(),
{
    if ds.len() > 0 {
        lemma_additional_no_overlap(ds.drop_last(), sr);
        assert(forall|i: int|
            0 <= i < ds.drop_last().len() ==> ds.drop_last()[i] == ds[i]);
        let front = additional_of(ds.drop_last(), sr);
        let all = additional_of(ds, sr);
        let a = ds.last();
        assert forall|j: int| 0 <= j < all.len() implies !(#[trigger] all[j]).delete.spec_overlaps(
            sr) by {
            if j < front.len() {
                assert(all[j] == front[j]);
            } else if covers(a, sr) {
                assert(all[j] == prefix_edit(a, sr));
            } else {
                assert(all[j] == a);
                assert(!a.delete.spec_touches(sr));
            }
        }
    }
}

/// Every additional edit's delete range stays inside the document when the
/// input edits' ranges do.
pub proof fn lemma_additional_in_bounds(ds: Seq<AtomEditView>, sr: TextRange, len: int)
    requires
        sr.wf(),
        forall|i: int| 0 <= i < ds.len() ==> (#[trigger] ds[i]).delete.in_bounds(len),
        sr.end <= len,
    ensures
        forall|j: int|
            0 <= j < additional_of(ds, sr).len() ==> (#[trigger] additional_of(ds, sr)[j])
                .delete.in_bounds(len),
    decreases ds.len(),
{
    if ds.len() > 0 {
        lemma_additional_in_bounds(ds.drop_last(), sr, len);
        assert(forall|i: int|
            0 <= i < ds.drop_last().len() ==> ds.drop_last()[i] == ds[i]);
        let front = additional_of(ds.drop_last(), sr);
        let all = additional_of(ds, sr);
        let a = ds.last();
        assert(a.delete.in_bounds(len));
        assert forall|j: int| 0 <= j < all.len() implies (#[trigger] all[j]).delete.in_bounds(
            len) by {
            if j < front.len() {
                assert(all[j] == front[j]);
            } else if covers(a, sr) {
                assert(all[j] == prefix_edit(a, sr));
            } else {
                assert(all[j] == a);
            }
        }
    }
}

/// Split a completion's edit set around the source range: the edit covering
/// the token being completed becomes the primary edit (trimmed to the
/// source range, its trimmed-off head demoted to an additional edit), and
/// every other edit an additional edit. Engine output violating the
/// precondition is reported, never repaired.
pub fn split_completion_edits(edits: &Vec<AtomTextEdit>, sr: TextRange) -> (r: Result<
    CompletionSplit,
    ConvError,
>)
    requires
        sr.wf(),
    ensures
        r is Ok <==> split_ok(views_of(edits@), sr),
        match r {
            Ok(split) => {
                &&& split.primary@.delete == sr
                &&& split.primary@.insert == covering_insert(views_of(edits@), sr)
                &&& views_of(split.additional@) == additional_of(views_of(edits@), sr)
                &&& forall|j: int|
                    0 <= j < split.additional@.len() ==> !(#[trigger] split.additional@[j])
                        .delete.spec_overlaps(sr)
            },
            Err(e) => {
                &&& (e == ConvError::NoPrimaryEdit ==> covering_count(views_of(edits@), sr) == 0)
                &&& (e == ConvError::DuplicatePrimaryEdit ==> covering_count(views_of(edits@), sr)
                    >= 2)
                &&& (e == ConvError::PrimaryEndMismatch ==> exists|i: int|
                    0 <= i < views_of(edits@).len() && covers(#[trigger] views_of(edits@)[i], sr)
                        && views_of(edits@)[i].delete.end != sr.end)
                &&& (e == ConvError::EditOverlapsSourceRange ==> exists|i: int|
                    0 <= i < views_of(edits@).len() && !covers(#[trigger] views_of(edits@)[i], sr)
                        && views_of(edits@)[i].delete.spec_touches(sr))
                &&& (e == ConvError::NoPrimaryEdit || e == ConvError::DuplicatePrimaryEdit
                    || e == ConvError::PrimaryEndMismatch
                    || e == ConvError::EditOverlapsSourceRange)
            },
        },
{
    let ghost ds = views_of(edits@);
    let mut primary: Option<AtomTextEdit> = None;
    let mut additional: Vec<AtomTextEdit> = Vec::new();
    let mut i: usize = 0;
    while i < edits.len()
        invariant
            i <= edits@.len(),
            sr.wf(),
            ds == views_of(edits@),
            match primary {
                Some(p) => {
                    &&& covering_count(ds.take(i as int), sr) == 1
                    &&& p@.delete == sr
                    &&& p@.insert == covering_insert(ds.take(i as int), sr)
                },
                None => covering_count(ds.take(i as int), sr) == 0,
            },
            forall|k: int|
                0 <= k < i && covers(#[trigger] ds[k], sr) ==> ds[k].delete.end == sr.end,
            forall|k: int|
                0 <= k < i && !covers(#[trigger] ds[k], sr) ==> !ds[k].delete.spec_touches(sr),
            views_of(additional@) == additional_of(ds.take(i as int), sr),
        decreases edits@.len() - i,
    {
        let a = &edits[i];
        proof {
            assert(ds[i as int] == a@);
            assert(ds.take(i + 1).drop_last() =~= ds.take(i as int));
            assert(ds.take(i + 1).last() == ds[i as int]);
        }
        if a.delete.contains_range(&sr) {
            if primary.is_some() {
                proof {
                    lemma_covering_count_prefix(ds, sr, i + 1);
                }
                return Err(ConvError::DuplicatePrimaryEdit);
            }
            if a.delete.end != sr.end {
                return Err(ConvError::PrimaryEndMismatch);
            }
            if a.delete.start != sr.start {
                additional.push(AtomTextEdit::replace(
                    TextRange::new(a.delete.start, sr.start),
                    Vec::new(),
                ));
                proof {
                    assert(ds[i as int].delete != sr);
                    assert(views_of(additional@) =~= additional_of(ds.take(i + 1), sr));
                }
            } else {
                proof {
                    assert(ds[i as int].delete == sr);
                }
            }
            primary = Some(AtomTextEdit { delete: sr, insert: clone_bytes(&a.insert) });
        } else {
            if a.delete.touches(&sr) {
                return Err(ConvError::EditOverlapsSourceRange);
            }
            let copy = AtomTextEdit { delete: a.delete, insert: clone_bytes(&a.insert) };
            additional.push(copy);
            proof {
                assert(views_of(additional@) =~= additional_of(ds.take(i + 1), sr));
            }
        }
        i = i + 1;
    }
    proof {
        assert(ds.take(i as int) =~= ds);
        if covering_count(ds, sr) == 1 {
            lemma_additional_no_overlap(ds, sr);
            assert(views_of(additional@).len() == additional@.len());
            assert forall|j: int|
                0 <= j < additional@.len() implies !(#[trigger] additional@[j])
                .delete.spec_overlaps(sr) by {
                assert(views_of(additional@)[j] == additional@[j]@);
                assert(!additional_of(ds, sr)[j].delete.spec_overlaps(sr));
            }
        }
    }
    match primary {
        Some(p) => Ok(CompletionSplit { primary: p, additional }),
        None => Err(ConvError::NoPrimaryEdit),
    }
}

/// The edits are in document order, pairwise disjoint, and within a
/// document of `len` bytes: the shape the engine's edit lists have.
pub open spec fn edits_ordered(ds: Seq<AtomEditView>, len: int) -> bool {
    &&& forall|i: int| 0 <= i < ds.len() ==> (#[trigger] ds[i]).delete.in_bounds(len)
    &&& forall|i: int|
        0 <= i < ds.len() - 1 ==> (#[trigger] ds[i]).delete.end <= ds[i + 1].delete.start
}

/// The document left when the edits from `i` on are applied to `s`, the
/// part before `pos` having been emitted already.
pub open spec fn apply_from(s: Seq<u8>, ds: Seq<AtomEditView>, i: int, pos: int) -> Seq<u8>
    decreases ds.len() - i,
{
    if i < 0 || i >= ds.len() {
        s.subrange(pos, s.len() as int)
    } else {
        s.subrange(pos, ds[i].delete.start as int) + ds[i].insert + apply_from(s, ds, i + 1,
            ds[i].delete.end as int)
    }
}

/// The document `s` with all of `ds` applied.
pub open spec fn applied(s: Seq<u8>, ds: Seq<AtomEditView>) -> Seq<u8> {
    apply_from(s, ds, 0, 0)
}

/// Append the bytes of `src[from..to]` to `out`.
fn push_byte_range(out: &mut Vec<u8>, src: &Vec<u8>, from: usize, to: usize)
    requires
        from <= to <= src@.len(),
    ensures
        final(out)@ == old(out)@ + src@.subrange(from as int, to as int),
{
    let mut p = from;
    proof {
        assert(out@ =~= out@ + src@.subrange(from as int, from as int));
    }
    while p < to
        invariant
            from <= p <= to <= src@.len(),
            out@ == old(out)@ + src@.subrange(from as int, p as int),
        decreases to - p,
    {
        out.push(src[p]);
        proof {
            assert(old(out)@ + src@.subrange(from as int, p + 1) =~= (old(out)@ + src@.subrange(
                from as int, p as int)).push(src@[p as int]));
        }
        p = p + 1;
    }
}

/// Append all of `src` to `out`.
fn push_bytes(out: &mut Vec<u8>, src: &Vec<u8>)
    ensures
        final(out)@ == old(out)@ + src@,
{
    push_byte_range(out, src, 0, src.len());
    proof {
        assert(src@.subrange(0, src@.len() as int) =~= src@);
    }
}

/// Apply an ordered, disjoint edit list to a document: each delete span is
/// replaced by its insertion, everything else is kept. This is the
/// document a cursor offset supplied alongside such an edit list refers
/// to.
pub fn apply_edits(text: &Vec<u8>, edits: &Vec<AtomTextEdit>) -> (r: Vec<u8>)
    requires
        edits_ordered(views_of(edits@), text@.len() as int),
    ensures
        r@ == applied(text@, views_of(edits@)),
{
    let ghost s = text@;
    let ghost ds = views_of(edits@);
    let mut out: Vec<u8> = Vec::new();
    let mut pos: usize = 0;
    let mut i: usize = 0;
    proof {
        assert(out@ + apply_from(s, ds, 0, 0) =~= apply_from(s, ds, 0, 0));
    }
    while i < edits.len()
        invariant
            i <= ds.len(),
            ds == views_of(edits@),
            s == text@,
            edits_ordered(ds, s.len() as int),
            pos <= s.len(),
            i < ds.len() ==> pos <= ds[i as int].delete.start,
            applied(s, ds) == out@ + apply_from(s, ds, i as int, pos as int),
        decreases ds.len() - i,
    {
        proof {
            assert(ds[i as int] == edits@[i as int]@);
        }
        let start = edits[i].delete.start;
        let end = edits[i].delete.end;
        push_byte_range(&mut out, text, pos, start);
        push_bytes(&mut out, &edits[i].insert);
        proof {
            assert(apply_from(s, ds, i as int, pos as int) =~= s.subrange(pos as int,
                start as int) + ds[i as int].insert + apply_from(s, ds, i + 1, end as int));
            assert(out@ + apply_from(s, ds, i + 1, end as int) =~= applied(s, ds));
            if i + 1 < ds.len() {
                assert(ds[i as int].delete.end <= ds[i + 1].delete.start);
            }
        }
        pos = end;
        i = i + 1;
    }
    push_byte_range(&mut out, text, pos, text.len());
    proof {
        assert(apply_from(s, ds, i as int, pos as int) == s.subrange(pos as int, s.len() as int));
        assert(out@ =~= applied(s, ds));
    }
    out
}

} // verus!
