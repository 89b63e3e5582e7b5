use lsp_conv::line_index::LineIndex;
use lsp_conv::navigation::{
    navigation_target_to_location, to_call_hierarchy_item, to_goto_definition_response,
    to_location, to_location_link, NavigationTarget, RangeInfo,
};
use lsp_conv::protocol::{
    GotoDefinitionResponse, Position, PosRange, TextDocumentIdentifier,
    TextDocumentPositionParams,
};
use lsp_conv::text::{LineEndings, TextRange};
use lsp_conv::world::{FileEntry, SourceRootEntry, WorldSnapshot};
use lsp_conv::ConvError;

fn snapshot(link_capable: bool) -> WorldSnapshot {
    WorldSnapshot {
        files: vec![
            FileEntry {
                file_id: 1,
                uri: String::from("file:///src/lib.rs"),
                index: LineIndex::new(b"mod m;\nfn a() {}\n".to_vec()),
                line_endings: LineEndings::Unix,
            },
            FileEntry {
                file_id: 2,
                uri: String::from("file:///src/m.rs"),
                index: LineIndex::new(b"pub fn target() {\n}\n".to_vec()),
                line_endings: LineEndings::Dos,
            },
        ],
        roots: vec![SourceRootEntry { root_id: 7, base_uri: String::from("file:///src") }],
        location_link_capable: link_capable,
    }
}

#[test]
fn uri_lookup_both_ways() {
    let w = snapshot(true);
    assert_eq!(w.file_id_to_uri(2).unwrap(), "file:///src/m.rs");
    assert_eq!(w.file_id_to_uri(9).unwrap_err(), ConvError::UnknownFile);
    assert_eq!(w.uri_to_file_id(&String::from("file:///src/lib.rs")).unwrap(), 1);
    assert_eq!(
        w.uri_to_file_id(&String::from("file:///other")).unwrap_err(),
        ConvError::UnknownUri
    );
}

#[test]
fn path_to_uri_joins_root_and_path() {
    let w = snapshot(true);
    assert_eq!(w.path_to_uri(7, &String::from("new.rs")).unwrap(), "file:///src/new.rs");
    assert_eq!(w.path_to_uri(8, &String::from("new.rs")).unwrap_err(), ConvError::UnknownRoot);
}

#[test]
fn file_position_resolves_and_checks_bounds() {
    let w = snapshot(true);
    let params = TextDocumentPositionParams {
        text_document: TextDocumentIdentifier { uri: String::from("file:///src/lib.rs") },
        position: Position { line: 1, character: 3 },
    };
    let fp = w.file_position(&params).unwrap();
    assert_eq!(fp.file_id, 1);
    assert_eq!(fp.offset, 10);

    let params = TextDocumentPositionParams {
        text_document: TextDocumentIdentifier { uri: String::from("file:///src/lib.rs") },
        position: Position { line: 9, character: 0 },
    };
    assert_eq!(w.file_position(&params).unwrap_err(), ConvError::OffsetOutOfBounds);
}

#[test]
fn file_range_resolves_both_ends() {
    let w = snapshot(true);
    let doc = TextDocumentIdentifier { uri: String::from("file:///src/lib.rs") };
    let fr = w
        .file_range(
            &doc,
            PosRange {
                start: Position { line: 1, character: 0 },
                end: Position { line: 1, character: 2 },
            },
        )
        .unwrap();
    assert_eq!(fr.file_id, 1);
    assert_eq!(fr.range, TextRange { start: 7, end: 9 });
}

#[test]
fn file_range_rejects_backwards_range() {
    let w = snapshot(true);
    let doc = TextDocumentIdentifier { uri: String::from("file:///src/lib.rs") };
    let err = w
        .file_range(
            &doc,
            PosRange {
                start: Position { line: 1, character: 2 },
                end: Position { line: 1, character: 0 },
            },
        )
        .unwrap_err();
    assert_eq!(err, ConvError::BackwardRange);
}

#[test]
fn to_location_resolves_uri_and_range() {
    let w = snapshot(true);
    let index = LineIndex::new(b"mod m;\nfn a() {}\n".to_vec());
    let loc = to_location(1, TextRange { start: 7, end: 9 }, &w, &index).unwrap();
    assert_eq!(loc.uri, "file:///src/lib.rs");
    assert_eq!(loc.range.start, Position { line: 1, character: 0 });
    assert_eq!(loc.range.end, Position { line: 1, character: 2 });
    assert_eq!(
        to_location(9, TextRange { start: 0, end: 1 }, &w, &index).unwrap_err(),
        ConvError::UnknownFile
    );
}

fn target() -> NavigationTarget {
    NavigationTarget {
        file_id: 2,
        full_range: TextRange { start: 0, end: 19 },
        focus_range: Some(TextRange { start: 7, end: 13 }),
        name: String::from("target"),
        kind: lsp_conv::kinds::SyntaxKind::FnDef,
        description: Some(String::from("pub fn target()")),
    }
}

#[test]
fn navigation_target_location_uses_full_range() {
    let w = snapshot(true);
    let loc = navigation_target_to_location(&target(), &w).unwrap();
    assert_eq!(loc.uri, "file:///src/m.rs");
    assert_eq!(loc.range.start, Position { line: 0, character: 0 });
    assert_eq!(loc.range.end, Position { line: 1, character: 1 });
}

#[test]
fn location_link_distinguishes_full_and_selection_ranges() {
    let w = snapshot(true);
    let info = RangeInfo { range: TextRange { start: 4, end: 5 }, info: target() };
    let link = to_location_link(&w, 1, &info).unwrap();
    assert_eq!(
        link.origin_selection_range,
        Some(PosRange {
            start: Position { line: 0, character: 4 },
            end: Position { line: 0, character: 5 },
        })
    );
    assert_eq!(link.target_uri, "file:///src/m.rs");
    assert_eq!(link.target_range.end, Position { line: 1, character: 1 });
    assert_eq!(link.target_selection_range.start, Position { line: 0, character: 7 });
    assert_eq!(link.target_selection_range.end, Position { line: 0, character: 13 });
}

#[test]
fn goto_definition_links_for_capable_client() {
    let w = snapshot(true);
    let navs = vec![target()];
    let resp =
        to_goto_definition_response(&w, 1, TextRange { start: 4, end: 5 }, &navs).unwrap();
    match resp {
        GotoDefinitionResponse::Link(links) => {
            assert_eq!(links.len(), 1);
            assert_eq!(links[0].target_uri, "file:///src/m.rs");
        }
        other => panic!("expected links, got {:?}", other),
    }
}

#[test]
fn goto_definition_degrades_to_selection_range_locations() {
    let w = snapshot(false);
    let navs = vec![target()];
    let resp =
        to_goto_definition_response(&w, 1, TextRange { start: 4, end: 5 }, &navs).unwrap();
    match resp {
        GotoDefinitionResponse::Array(locs) => {
            assert_eq!(locs.len(), 1);
            assert_eq!(locs[0].uri, "file:///src/m.rs");
            // The degraded location carries the target's selection range
            // (the focus range), never the full range.
            assert_eq!(locs[0].range.start, Position { line: 0, character: 7 });
            assert_eq!(locs[0].range.end, Position { line: 0, character: 13 });
        }
        other => panic!("expected plain locations, got {:?}", other),
    }
}

#[test]
fn call_hierarchy_item_fields() {
    let w = snapshot(true);
    let index = LineIndex::new(b"pub fn target() {\n}\n".to_vec());
    let item =
        to_call_hierarchy_item(2, TextRange { start: 7, end: 13 }, &w, &index, &target())
            .unwrap();
    assert_eq!(item.name, "target");
    assert_eq!(item.kind, lsp_conv::protocol::SymbolKind::Function);
    assert_eq!(item.detail.as_deref(), Some("pub fn target()"));
    assert_eq!(item.uri, "file:///src/m.rs");
    assert_eq!(item.range.start, Position { line: 0, character: 0 });
    assert_eq!(item.selection_range.start, Position { line: 0, character: 7 });
}
