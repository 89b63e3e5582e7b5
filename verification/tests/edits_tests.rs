use lsp_conv::edits::{
    apply_edits, normalize_line_endings, pos_range_to_range, split_completion_edits,
    translate_atom_edit, translate_edits, ConvWithIter,
};
use lsp_conv::line_index::LineIndex;
use lsp_conv::protocol::{PosRange, Position};
use lsp_conv::text::{AtomTextEdit, LineEndings, TextRange};
use lsp_conv::ConvError;

fn edit(start: usize, end: usize, insert: &str) -> AtomTextEdit {
    AtomTextEdit { delete: TextRange { start, end }, insert: insert.as_bytes().to_vec() }
}

#[test]
fn normalize_keeps_unix_text() {
    let out = normalize_line_endings(&b"a\nb\nc".to_vec(), LineEndings::Unix);
    assert_eq!(out, b"a\nb\nc".to_vec());
}

#[test]
fn normalize_rewrites_bare_line_feeds_for_dos() {
    let out = normalize_line_endings(&b"a\nb\nc".to_vec(), LineEndings::Dos);
    assert_eq!(out, b"a\r\nb\r\nc".to_vec());
    // Only bare line feeds are rewritten: an existing two-byte terminator
    // is kept as it is, and so is a carriage return on its own.
    let out = normalize_line_endings(&b"a\r\nb\nc".to_vec(), LineEndings::Dos);
    assert_eq!(out, b"a\r\nb\r\nc".to_vec());
    let out = normalize_line_endings(&b"a\rb".to_vec(), LineEndings::Dos);
    assert_eq!(out, b"a\rb".to_vec());
}

#[test]
fn translate_atom_edit_maps_range_and_text() {
    let index = LineIndex::new(b"one\ntwo\nthree".to_vec());
    let te = translate_atom_edit(&edit(4, 7, "2\n2"), &index, LineEndings::Dos);
    assert_eq!(te.range.start.line, 1);
    assert_eq!(te.range.start.character, 0);
    assert_eq!(te.range.end.line, 1);
    assert_eq!(te.range.end.character, 3);
    assert_eq!(te.new_text, b"2\r\n2".to_vec());
}

#[test]
fn translate_edits_keeps_input_order() {
    let index = LineIndex::new(b"one\ntwo\nthree".to_vec());
    let edits = vec![edit(0, 3, "x"), edit(8, 13, "y")];
    let out = translate_edits(&edits, &index, LineEndings::Unix);
    assert_eq!(out.len(), 2);
    assert_eq!(out[0].range.start.line, 0);
    assert_eq!(out[0].new_text, b"x".to_vec());
    assert_eq!(out[1].range.start.line, 2);
    assert_eq!(out[1].new_text, b"y".to_vec());
}

#[test]
fn pos_range_to_range_keeps_order() {
    let index = LineIndex::new(b"one\ntwo\nthree".to_vec());
    let r = pos_range_to_range(
        &index,
        PosRange {
            start: Position { line: 0, character: 1 },
            end: Position { line: 2, character: 3 },
        },
    );
    assert_eq!(r, TextRange { start: 1, end: 11 });
    assert!(r.start <= r.end);
}

#[test]
fn conv_with_iter_hands_out_translations_in_order() {
    let index = LineIndex::new(b"one\ntwo".to_vec());
    let edits = vec![edit(0, 3, "a"), edit(4, 7, "b")];
    let mut iter = ConvWithIter::new(&edits, &index, LineEndings::Unix);
    let first = iter.next().unwrap();
    assert_eq!(first.range.start.line, 0);
    assert_eq!(first.new_text, b"a".to_vec());
    let second = iter.next().unwrap();
    assert_eq!(second.range.start.line, 1);
    assert_eq!(second.new_text, b"b".to_vec());
    assert!(iter.next().is_none());
}

#[test]
fn split_trims_covering_edit_to_source_range() {
    // The covering edit extends the token to the left; its head becomes
    // an additional edit with an empty insertion.
    let edits = vec![edit(5, 10, "foo")];
    let sr = TextRange { start: 7, end: 10 };
    let split = split_completion_edits(&edits, sr).unwrap();
    assert_eq!(split.primary.delete, sr);
    assert_eq!(split.primary.insert, b"foo".to_vec());
    assert_eq!(split.additional.len(), 1);
    assert_eq!(split.additional[0].delete, TextRange { start: 5, end: 7 });
    assert_eq!(split.additional[0].insert, b"".to_vec());
}

#[test]
fn split_keeps_exact_covering_edit_and_other_edits() {
    let edits = vec![edit(0, 2, "use x;"), edit(7, 10, "foo")];
    let sr = TextRange { start: 7, end: 10 };
    let split = split_completion_edits(&edits, sr).unwrap();
    assert_eq!(split.primary.delete, sr);
    assert_eq!(split.primary.insert, b"foo".to_vec());
    assert_eq!(split.additional.len(), 1);
    assert_eq!(split.additional[0].delete, TextRange { start: 0, end: 2 });
    assert_eq!(split.additional[0].insert, b"use x;".to_vec());
}

#[test]
fn split_with_empty_source_range() {
    // Completing at a point with nothing typed yet: the source range is
    // empty and the edit inserts at it.
    let edits = vec![edit(4, 4, "x")];
    let sr = TextRange { start: 4, end: 4 };
    let split = split_completion_edits(&edits, sr).unwrap();
    assert_eq!(split.primary.delete, sr);
    assert_eq!(split.primary.insert, b"x".to_vec());
    assert!(split.additional.is_empty());
}

#[test]
fn split_reports_missing_primary() {
    let edits = vec![edit(0, 2, "x")];
    let sr = TextRange { start: 7, end: 10 };
    assert_eq!(split_completion_edits(&edits, sr).unwrap_err(), ConvError::NoPrimaryEdit);
}

#[test]
fn split_reports_duplicate_primary() {
    let edits = vec![edit(5, 10, "a"), edit(7, 10, "b")];
    let sr = TextRange { start: 7, end: 10 };
    assert_eq!(
        split_completion_edits(&edits, sr).unwrap_err(),
        ConvError::DuplicatePrimaryEdit
    );
}

#[test]
fn split_reports_covering_edit_with_other_end() {
    let edits = vec![edit(5, 12, "a")];
    let sr = TextRange { start: 7, end: 10 };
    assert_eq!(
        split_completion_edits(&edits, sr).unwrap_err(),
        ConvError::PrimaryEndMismatch
    );
}

#[test]
fn split_reports_edit_touching_source_range() {
    // A non-covering edit may not even touch the source range's start.
    let edits = vec![edit(2, 7, "a"), edit(7, 10, "b")];
    let sr = TextRange { start: 7, end: 10 };
    assert_eq!(
        split_completion_edits(&edits, sr).unwrap_err(),
        ConvError::EditOverlapsSourceRange
    );
}

#[test]
fn apply_edits_replaces_spans() {
    let text = b"hello world".to_vec();
    let edits = vec![edit(0, 5, "bye"), edit(6, 11, "moon")];
    let out = apply_edits(&text, &edits);
    assert_eq!(out, b"bye moon".to_vec());
}

#[test]
fn apply_edits_with_pure_insertion() {
    let text = b"ab".to_vec();
    let edits = vec![edit(1, 1, "--")];
    let out = apply_edits(&text, &edits);
    assert_eq!(out, b"a--b".to_vec());
}
