use lsp_conv::folding::{has_trailing_content, to_folding_range, Fold, FoldKind};
use lsp_conv::line_index::LineIndex;
use lsp_conv::protocol::FoldingRangeKind;
use lsp_conv::text::TextRange;

/// Strip `<fold>`/`</fold>` markers from `marked`, returning the byte
/// ranges they enclosed (in order of the opening markers) and the plain
/// text.
fn extract_fold_ranges(marked: &str) -> (Vec<(usize, usize)>, String) {
    let open = "<fold>";
    let close = "</fold>";
    let mut text = String::new();
    let mut ranges: Vec<(usize, usize)> = Vec::new();
    let mut stack: Vec<usize> = Vec::new();
    let mut rest = marked;
    while !rest.is_empty() {
        if rest.starts_with(open) {
            stack.push(ranges.len());
            ranges.push((text.len(), usize::MAX));
            rest = &rest[open.len()..];
        } else if rest.starts_with(close) {
            let idx = stack.pop().expect("unbalanced fold markers");
            ranges[idx].1 = text.len();
            rest = &rest[close.len()..];
        } else {
            let ch = rest.chars().next().unwrap();
            text.push(ch);
            rest = &rest[ch.len_utf8()..];
        }
    }
    assert!(stack.is_empty());
    (ranges, text)
}

#[test]
fn conv_fold_line_folding_only_fixup() {
    let text = r#"<fold>mod a;
mod b;
mod c;</fold>

fn main() <fold>{
    if cond <fold>{
        a::do_a();
    }</fold> else <fold>{
        b::do_b();
    }</fold>
}</fold>"#;

    let (ranges, text) = extract_fold_ranges(text);
    assert_eq!(ranges.len(), 4);
    let kinds = [FoldKind::Mods, FoldKind::Block, FoldKind::Block, FoldKind::Block];
    let folds: Vec<Fold> = ranges
        .iter()
        .zip(kinds.iter())
        .map(|(&(start, end), &kind)| Fold { range: TextRange { start, end }, kind })
        .collect();

    let line_index = LineIndex::new(text.as_bytes().to_vec());
    let converted: Vec<_> =
        folds.iter().map(|f| to_folding_range(f, &line_index, true)).collect();

    let expected_lines = [(0, 2), (4, 10), (5, 6), (7, 9)];
    assert_eq!(converted.len(), expected_lines.len());
    for (folding_range, (start_line, end_line)) in converted.iter().zip(expected_lines.iter()) {
        assert_eq!(folding_range.start_line, *start_line);
        assert_eq!(folding_range.start_character, None);
        assert_eq!(folding_range.end_line, *end_line);
        assert_eq!(folding_range.end_character, None);
    }
}

#[test]
fn fold_kinds_and_full_range_mode() {
    let text = b"// c\nuse a;\n".to_vec();
    let index = LineIndex::new(text);
    let comment = Fold { range: TextRange { start: 0, end: 4 }, kind: FoldKind::Comment };
    let imports = Fold { range: TextRange { start: 5, end: 11 }, kind: FoldKind::Imports };

    let fr = to_folding_range(&comment, &index, false);
    assert_eq!(fr.kind, Some(FoldingRangeKind::Comment));
    assert_eq!(fr.start_line, 0);
    assert_eq!(fr.start_character, Some(0));
    assert_eq!(fr.end_line, 0);
    assert_eq!(fr.end_character, Some(4));

    let fr = to_folding_range(&imports, &index, false);
    assert_eq!(fr.kind, Some(FoldingRangeKind::Imports));
    assert_eq!(fr.start_line, 1);
    assert_eq!(fr.end_line, 1);
}

#[test]
fn fold_degeneration_keeps_end_line_without_trailing_content() {
    // The fold ends at the closing brace; only blanks follow it.
    let text = b"fn f() {\n    g();\n}   \nh();\n".to_vec();
    let index = LineIndex::new(text);
    // "{" at 7, "}" at 18 (fold covers through the brace).
    let fold = Fold { range: TextRange { start: 7, end: 19 }, kind: FoldKind::Block };
    assert!(!has_trailing_content(&index, 19));
    let full = to_folding_range(&fold, &index, false);
    let line_only = to_folding_range(&fold, &index, true);
    assert_eq!(full.end_line, 2);
    assert_eq!(line_only.end_line, 2);
}

#[test]
fn fold_degeneration_shrinks_end_line_with_trailing_content() {
    let text = b"fn f() {\n    g();\n} h();\n".to_vec();
    let index = LineIndex::new(text);
    let fold = Fold { range: TextRange { start: 7, end: 19 }, kind: FoldKind::Block };
    assert!(has_trailing_content(&index, 19));
    let full = to_folding_range(&fold, &index, false);
    let line_only = to_folding_range(&fold, &index, true);
    assert_eq!(full.end_line, 2);
    assert_eq!(line_only.end_line, 1);
}

#[test]
fn unicode_whitespace_after_fold_end_is_blank() {
    // Only a no-break space (U+00A0) follows the fold's end on its line:
    // the end line must not retract.
    let text = "x\n}\u{00A0}".as_bytes().to_vec();
    let index = LineIndex::new(text);
    let fold = Fold { range: TextRange { start: 0, end: 3 }, kind: FoldKind::Block };
    assert!(!has_trailing_content(&index, 3));
    let full = to_folding_range(&fold, &index, false);
    let line_only = to_folding_range(&fold, &index, true);
    assert_eq!(full.end_line, 1);
    assert_eq!(line_only.end_line, 1);

    // The same for an ideographic space (U+3000) and a hair space
    // (U+200A).
    let text = "x\n}\u{3000}\u{200A} ".as_bytes().to_vec();
    let index = LineIndex::new(text);
    assert!(!has_trailing_content(&index, 3));
}

#[test]
fn non_ascii_content_after_fold_end_retracts() {
    // "é" is not whitespace, so the end line retracts by one.
    let text = "x\n}\u{00A0}é".as_bytes().to_vec();
    let index = LineIndex::new(text);
    let fold = Fold { range: TextRange { start: 0, end: 3 }, kind: FoldKind::Block };
    assert!(has_trailing_content(&index, 3));
    let line_only = to_folding_range(&fold, &index, true);
    assert_eq!(line_only.end_line, 0);
}

#[test]
fn fold_on_line_zero_with_trailing_content_cannot_retract() {
    let text = b"{ } x\n".to_vec();
    let index = LineIndex::new(text);
    let fold = Fold { range: TextRange { start: 0, end: 3 }, kind: FoldKind::Block };
    assert!(has_trailing_content(&index, 3));
    let line_only = to_folding_range(&fold, &index, true);
    assert_eq!(line_only.end_line, 0);
}
