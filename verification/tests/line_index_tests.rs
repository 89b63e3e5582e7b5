use lsp_conv::edits::{offset_to_position, position_to_offset};
use lsp_conv::line_index::{LineCol, LineIndex};
use lsp_conv::protocol::Position;

#[test]
fn line_col_ascii() {
    let index = LineIndex::new(b"hello\nworld".to_vec());
    assert_eq!(index.line_col(0), LineCol { line: 0, col_utf16: 0 });
    assert_eq!(index.line_col(5), LineCol { line: 0, col_utf16: 5 });
    assert_eq!(index.line_col(6), LineCol { line: 1, col_utf16: 0 });
    assert_eq!(index.line_col(8), LineCol { line: 1, col_utf16: 2 });
    assert_eq!(index.line_col(11), LineCol { line: 1, col_utf16: 5 });
}

#[test]
fn offset_ascii() {
    let index = LineIndex::new(b"hello\nworld".to_vec());
    assert_eq!(index.offset(LineCol { line: 0, col_utf16: 0 }), 0);
    assert_eq!(index.offset(LineCol { line: 0, col_utf16: 5 }), 5);
    assert_eq!(index.offset(LineCol { line: 1, col_utf16: 0 }), 6);
    assert_eq!(index.offset(LineCol { line: 1, col_utf16: 5 }), 11);
}

#[test]
fn line_col_multi_byte() {
    // "é" is two bytes and one UTF-16 unit; "€" three bytes, one unit.
    let text = "aé€b\n".as_bytes().to_vec();
    let index = LineIndex::new(text);
    // Offsets: a=0, é=1..3, €=3..6, b=6, \n=7.
    assert_eq!(index.line_col(1), LineCol { line: 0, col_utf16: 1 });
    assert_eq!(index.line_col(3), LineCol { line: 0, col_utf16: 2 });
    assert_eq!(index.line_col(6), LineCol { line: 0, col_utf16: 3 });
    assert_eq!(index.line_col(7), LineCol { line: 0, col_utf16: 4 });
}

#[test]
fn line_col_surrogate_pair() {
    // "𐐀" is four bytes in UTF-8 and a surrogate pair (two units) in
    // UTF-16.
    let text = "a𐐀b\nc".as_bytes().to_vec();
    let index = LineIndex::new(text);
    assert_eq!(index.line_col(1), LineCol { line: 0, col_utf16: 1 });
    assert_eq!(index.line_col(5), LineCol { line: 0, col_utf16: 3 });
    assert_eq!(index.line_col(6), LineCol { line: 0, col_utf16: 4 });
    assert_eq!(index.line_col(8), LineCol { line: 1, col_utf16: 1 });
    assert_eq!(index.offset(LineCol { line: 0, col_utf16: 3 }), 5);
    assert_eq!(index.offset(LineCol { line: 1, col_utf16: 1 }), 8);
}

#[test]
fn offset_position_round_trip() {
    let text = "mod a;\nfé 𐐀x\nlast".as_bytes().to_vec();
    let boundaries: Vec<usize> = String::from_utf8(text.clone())
        .unwrap()
        .char_indices()
        .map(|(i, _)| i)
        .chain(std::iter::once(text.len()))
        .collect();
    let index = LineIndex::new(text);
    for &o in &boundaries {
        let pos = offset_to_position(&index, o);
        assert_eq!(position_to_offset(&index, pos), o);
    }
}

#[test]
fn empty_document() {
    let index = LineIndex::new(Vec::new());
    assert_eq!(index.line_col(0), LineCol { line: 0, col_utf16: 0 });
    assert_eq!(index.offset(LineCol { line: 0, col_utf16: 0 }), 0);
    assert_eq!(index.checked_offset(LineCol { line: 0, col_utf16: 1 }), None);
}

#[test]
fn checked_offset_rejects_out_of_bounds() {
    let index = LineIndex::new(b"ab\ncd".to_vec());
    assert_eq!(index.checked_offset(LineCol { line: 0, col_utf16: 2 }), Some(2));
    assert_eq!(index.checked_offset(LineCol { line: 0, col_utf16: 3 }), None);
    assert_eq!(index.checked_offset(LineCol { line: 1, col_utf16: 2 }), Some(5));
    assert_eq!(index.checked_offset(LineCol { line: 2, col_utf16: 0 }), None);
}

#[test]
fn position_conversion_matches_line_col() {
    let index = LineIndex::new(b"one\ntwo three\n".to_vec());
    assert_eq!(offset_to_position(&index, 8), Position { line: 1, character: 4 });
    assert_eq!(position_to_offset(&index, Position { line: 1, character: 4 }), 8);
    assert_eq!(offset_to_position(&index, 14), Position { line: 2, character: 0 });
}
