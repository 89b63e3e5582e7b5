use lsp_conv::line_index::LineIndex;
use lsp_conv::protocol::{DocumentChangeOperation, Position, ResourceOp};
use lsp_conv::source_change::{
    source_change_to_protocol, source_file_edit_to_document_edit, file_system_edit_to_resource_op,
    FileSystemEdit, SourceChange, SourceFileEdit,
};
use lsp_conv::text::{AtomTextEdit, LineEndings, TextRange};
use lsp_conv::world::{FileEntry, FilePosition, SourceRootEntry, WorldSnapshot};
use lsp_conv::ConvError;

fn snapshot() -> WorldSnapshot {
    WorldSnapshot {
        files: vec![FileEntry {
            file_id: 1,
            uri: String::from("file:///src/lib.rs"),
            index: LineIndex::new(b"mod old;\nfn f() {}\n".to_vec()),
            line_endings: LineEndings::Unix,
        }],
        roots: vec![SourceRootEntry { root_id: 3, base_uri: String::from("file:///src") }],
        location_link_capable: true,
    }
}

#[test]
fn resource_ops_resolve_locators() {
    let w = snapshot();
    let create = FileSystemEdit::CreateFile { source_root: 3, path: String::from("new.rs") };
    match file_system_edit_to_resource_op(&w, &create).unwrap() {
        ResourceOp::Create(c) => assert_eq!(c.uri, "file:///src/new.rs"),
        other => panic!("expected a create, got {:?}", other),
    }
    let mv = FileSystemEdit::MoveFile {
        src: 1,
        dst_source_root: 3,
        dst_path: String::from("renamed.rs"),
    };
    match file_system_edit_to_resource_op(&w, &mv).unwrap() {
        ResourceOp::Rename(r) => {
            assert_eq!(r.old_uri, "file:///src/lib.rs");
            assert_eq!(r.new_uri, "file:///src/renamed.rs");
        }
        other => panic!("expected a rename, got {:?}", other),
    }
    let bad = FileSystemEdit::CreateFile { source_root: 9, path: String::from("x") };
    assert_eq!(file_system_edit_to_resource_op(&w, &bad).unwrap_err(), ConvError::UnknownRoot);
}

#[test]
fn document_edit_translates_through_the_files_index() {
    let w = snapshot();
    let sfe = SourceFileEdit {
        file_id: 1,
        edit: vec![AtomTextEdit {
            delete: TextRange { start: 4, end: 7 },
            insert: b"new".to_vec(),
        }],
    };
    let de = source_file_edit_to_document_edit(&w, &sfe).unwrap();
    assert_eq!(de.text_document.uri, "file:///src/lib.rs");
    assert_eq!(de.text_document.version, None);
    assert_eq!(de.edits.len(), 1);
    assert_eq!(de.edits[0].range.start, Position { line: 0, character: 4 });
    assert_eq!(de.edits[0].range.end, Position { line: 0, character: 7 });
    assert_eq!(de.edits[0].new_text, b"new".to_vec());
}

#[test]
fn source_change_orders_ops_before_edits_and_translates_cursor() {
    let w = snapshot();
    let change = SourceChange {
        label: String::from("rename module"),
        source_file_edits: vec![SourceFileEdit {
            file_id: 1,
            // "old" -> "brand_new": the document grows by six bytes.
            edit: vec![AtomTextEdit {
                delete: TextRange { start: 4, end: 7 },
                insert: b"brand_new".to_vec(),
            }],
        }],
        file_system_edits: vec![FileSystemEdit::MoveFile {
            src: 1,
            dst_source_root: 3,
            dst_path: String::from("brand_new.rs"),
        }],
        // Offset into the *edited* document: right after "mod brand_new"
        // on line 0, which line 1 of the old document follows.
        cursor_position: Some(FilePosition { file_id: 1, offset: 13 }),
    };
    let sc = source_change_to_protocol(&w, &change).unwrap();
    assert_eq!(sc.label, "rename module");
    assert_eq!(sc.workspace_edit.document_changes.len(), 2);
    match &sc.workspace_edit.document_changes[0] {
        DocumentChangeOperation::Op(ResourceOp::Rename(r)) => {
            assert_eq!(r.new_uri, "file:///src/brand_new.rs");
        }
        other => panic!("expected the rename first, got {:?}", other),
    }
    match &sc.workspace_edit.document_changes[1] {
        DocumentChangeOperation::Edit(de) => {
            assert_eq!(de.edits.len(), 1);
        }
        other => panic!("expected the text edit second, got {:?}", other),
    }
    let cursor = sc.cursor_position.expect("cursor kept");
    assert_eq!(cursor.text_document.uri, "file:///src/lib.rs");
    assert_eq!(cursor.position, Position { line: 0, character: 13 });
}

#[test]
fn source_change_without_edit_for_cursor_file_uses_plain_index() {
    let w = snapshot();
    let change = SourceChange {
        label: String::from("noop"),
        source_file_edits: vec![],
        file_system_edits: vec![],
        cursor_position: Some(FilePosition { file_id: 1, offset: 9 }),
    };
    let sc = source_change_to_protocol(&w, &change).unwrap();
    assert!(sc.workspace_edit.document_changes.is_empty());
    assert_eq!(
        sc.cursor_position.unwrap().position,
        Position { line: 1, character: 0 }
    );
}

#[test]
fn source_change_rejects_cursor_outside_edited_document() {
    let w = snapshot();
    let change = SourceChange {
        label: String::from("bad"),
        source_file_edits: vec![],
        file_system_edits: vec![],
        cursor_position: Some(FilePosition { file_id: 1, offset: 99 }),
    };
    assert_eq!(
        source_change_to_protocol(&w, &change).unwrap_err(),
        ConvError::OffsetOutOfBounds
    );
}
