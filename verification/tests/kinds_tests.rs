use lsp_conv::completion::Documentation;
use lsp_conv::inlay::{to_inlay_hint, InlayHint, InlayKind};
use lsp_conv::kinds::{
    to_completion_item_kind, to_diagnostic_severity, to_document_highlight_kind, to_symbol_kind,
    CompletionItemKind, ReferenceAccess, Severity, SyntaxKind,
};
use lsp_conv::line_index::LineIndex;
use lsp_conv::protocol;
use lsp_conv::semantic::{
    to_semantic_token, token_type_index, Highlight, HighlightModifier, HighlightTag, TokenType,
    MOD_CONSTANT, MOD_DECLARATION, MOD_MUTABLE, MOD_STATIC,
};
use lsp_conv::signature::{join_comma, to_signature_information, FunctionSignature};
use lsp_conv::text::TextRange;

#[test]
fn symbol_kinds() {
    assert_eq!(to_symbol_kind(SyntaxKind::StructDef), protocol::SymbolKind::Struct);
    assert_eq!(to_symbol_kind(SyntaxKind::MacroCall), protocol::SymbolKind::Function);
    assert_eq!(to_symbol_kind(SyntaxKind::TypeAliasDef), protocol::SymbolKind::TypeParameter);
    assert_eq!(to_symbol_kind(SyntaxKind::Other), protocol::SymbolKind::Variable);
}

#[test]
fn completion_kinds() {
    assert_eq!(
        to_completion_item_kind(CompletionItemKind::BuiltinType),
        protocol::CompletionItemKind::Struct
    );
    assert_eq!(
        to_completion_item_kind(CompletionItemKind::Macro),
        protocol::CompletionItemKind::Method
    );
    assert_eq!(
        to_completion_item_kind(CompletionItemKind::Static),
        protocol::CompletionItemKind::Value
    );
}

#[test]
fn severities_and_highlight_kinds() {
    assert_eq!(to_diagnostic_severity(Severity::Error), protocol::DiagnosticSeverity::Error);
    assert_eq!(
        to_diagnostic_severity(Severity::WeakWarning),
        protocol::DiagnosticSeverity::Hint
    );
    assert_eq!(
        to_document_highlight_kind(ReferenceAccess::Read),
        protocol::DocumentHighlightKind::Read
    );
    assert_eq!(
        to_document_highlight_kind(ReferenceAccess::Write),
        protocol::DocumentHighlightKind::Write
    );
}

#[test]
fn semantic_token_for_constant_accumulates_modifiers() {
    let h = Highlight {
        tag: HighlightTag::Constant,
        modifiers: vec![HighlightModifier::Definition, HighlightModifier::Mutable],
    };
    let (type_index, mods) = to_semantic_token(&h);
    assert_eq!(type_index, token_type_index(TokenType::Variable));
    assert_eq!(mods, MOD_CONSTANT | MOD_STATIC | MOD_DECLARATION | MOD_MUTABLE);
}

#[test]
fn semantic_token_for_plain_tag() {
    let h = Highlight { tag: HighlightTag::Comment, modifiers: vec![] };
    assert_eq!(to_semantic_token(&h), (token_type_index(TokenType::Comment), 0));
}

#[test]
fn join_comma_separates_parameters() {
    assert_eq!(join_comma(&vec![]), "");
    assert_eq!(join_comma(&vec![String::from("x: i32")]), "x: i32");
    assert_eq!(
        join_comma(&vec![String::from("x: i32"), String::from("y: u8")]),
        "x: i32, y: u8"
    );
}

#[test]
fn signature_information_concise_drops_self_and_docs() {
    let sig = FunctionSignature {
        rendered: String::from("pub fn frob(&self, x: i32, y: u8) -> u8"),
        parameters: vec![
            String::from("&self"),
            String::from("x: i32"),
            String::from("y: u8"),
        ],
        has_self_param: true,
        doc: Some(Documentation(String::from("frobs"))),
    };
    let si = to_signature_information(&sig, true);
    assert_eq!(si.label, "x: i32, y: u8");
    assert!(si.documentation.is_none());
    let params = si.parameters.unwrap();
    assert_eq!(params.len(), 2);
    assert_eq!(params[0].label, "x: i32");
    assert_eq!(params[1].label, "y: u8");
}

#[test]
fn signature_information_full_keeps_rendering_and_docs() {
    let sig = FunctionSignature {
        rendered: String::from("pub fn frob(&self, x: i32) -> u8"),
        parameters: vec![String::from("&self"), String::from("x: i32")],
        has_self_param: true,
        doc: Some(Documentation(String::from("frobs"))),
    };
    let si = to_signature_information(&sig, false);
    assert_eq!(si.label, "pub fn frob(&self, x: i32) -> u8");
    match si.documentation {
        Some(protocol::Documentation::MarkupContent(mc)) => assert_eq!(mc.value, "frobs"),
        None => panic!("documentation dropped"),
    }
    assert_eq!(si.parameters.unwrap().len(), 2);
}

#[test]
fn inlay_hint_maps_kind_and_range() {
    let index = LineIndex::new(b"let x = f();\n".to_vec());
    let hint = InlayHint {
        range: TextRange { start: 4, end: 5 },
        kind: InlayKind::TypeHint,
        label: String::from(": i32"),
    };
    let out = to_inlay_hint(&hint, &index);
    assert_eq!(out.label, ": i32");
    assert_eq!(out.kind, protocol::InlayHintKind::TypeHint);
    assert_eq!(out.range.start.character, 4);
    assert_eq!(out.range.end.character, 5);
}
