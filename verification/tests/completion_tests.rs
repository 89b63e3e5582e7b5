use lsp_conv::completion::{
    to_completion_item, CompletionItem, CompletionScore, Documentation, InsertTextFormat,
};
use lsp_conv::kinds;
use lsp_conv::line_index::LineIndex;
use lsp_conv::protocol;
use lsp_conv::text::{AtomTextEdit, LineEndings, TextRange};
use lsp_conv::ConvError;

fn base_item() -> CompletionItem {
    CompletionItem {
        label: String::from("frobnicate"),
        detail: Some(String::from("fn frobnicate()")),
        lookup: String::from("frob"),
        kind: Some(kinds::CompletionItemKind::Function),
        source_range: TextRange { start: 7, end: 10 },
        text_edit: vec![AtomTextEdit {
            delete: TextRange { start: 5, end: 10 },
            insert: b"frobnicate()".to_vec(),
        }],
        documentation: Some(Documentation(String::from("does the frob"))),
        deprecated: true,
        trigger_call_info: true,
        score: Some(CompletionScore::TypeAndNameMatch),
        insert_text_format: InsertTextFormat::Snippet,
    }
}

#[test]
fn completion_item_fields_carry_over() {
    let index = LineIndex::new(b"0123456789abcdef".to_vec());
    let item = base_item();
    let c = to_completion_item(&item, &index, LineEndings::Unix).unwrap();

    assert_eq!(c.label, "frobnicate");
    assert_eq!(c.detail.as_deref(), Some("fn frobnicate()"));
    assert_eq!(c.filter_text.as_deref(), Some("frob"));
    assert_eq!(c.kind, Some(protocol::CompletionItemKind::Function));
    assert_eq!(c.deprecated, Some(true));
    assert_eq!(c.preselect, Some(true));
    assert_eq!(c.insert_text_format, Some(protocol::InsertTextFormat::Snippet));
    match c.tags.as_deref() {
        Some([protocol::CompletionItemTag::Deprecated]) => {}
        other => panic!("unexpected tags: {:?}", other),
    }
    let cmd = c.command.expect("trigger_call_info sets a command");
    assert_eq!(cmd.title, "triggerParameterHints");
    assert_eq!(cmd.command, "editor.action.triggerParameterHints");
    match c.documentation {
        Some(protocol::Documentation::MarkupContent(mc)) => {
            assert_eq!(mc.kind, protocol::MarkupKind::Markdown);
            assert_eq!(mc.value, "does the frob");
        }
        None => panic!("documentation dropped"),
    }

    // The covering edit was trimmed to the source range.
    let te = c.text_edit.expect("primary edit");
    assert_eq!(te.range.start.character, 7);
    assert_eq!(te.range.end.character, 10);
    assert_eq!(te.new_text, b"frobnicate()".to_vec());
    let additional = c.additional_text_edits.expect("additional edits");
    assert_eq!(additional.len(), 1);
    assert_eq!(additional[0].range.start.character, 5);
    assert_eq!(additional[0].range.end.character, 7);
    assert_eq!(additional[0].new_text, b"".to_vec());
}

#[test]
fn completion_item_without_flags() {
    let index = LineIndex::new(b"0123456789abcdef".to_vec());
    let mut item = base_item();
    item.detail = None;
    item.kind = None;
    item.documentation = None;
    item.deprecated = false;
    item.trigger_call_info = false;
    item.score = None;
    item.insert_text_format = InsertTextFormat::PlainText;
    let c = to_completion_item(&item, &index, LineEndings::Unix).unwrap();
    assert_eq!(c.detail, None);
    assert_eq!(c.kind, None);
    assert!(c.documentation.is_none());
    assert_eq!(c.deprecated, Some(false));
    assert!(c.command.is_none());
    assert_eq!(c.preselect, None);
    assert!(c.tags.is_none());
    assert_eq!(c.insert_text_format, Some(protocol::InsertTextFormat::PlainText));
}

#[test]
fn completion_item_reports_bad_edit_set() {
    let index = LineIndex::new(b"0123456789abcdef".to_vec());
    let mut item = base_item();
    item.text_edit = vec![];
    assert_eq!(
        to_completion_item(&item, &index, LineEndings::Unix).unwrap_err(),
        ConvError::NoPrimaryEdit
    );
}
