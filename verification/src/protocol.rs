//! Plain mirrors of the editor-protocol structures this layer produces.
//!
//! These hold exactly the fields the conversions fill in. The wire layer
//! outside the library carries them to the protocol crate's own types, which
//! exist there with the serialization derives the wire needs.

use vstd::prelude::*;

verus! {

/// A protocol position: zero-based line and UTF-16 code-unit column.
#[derive(Clone, Copy, Debug, PartialEq, Eq, Structural)]
pub struct Position {
    pub line: u32,
    pub character: u32,
}

impl Position {
    /// `self` comes before `other` in document order, or equals it.
    pub open spec fn lex_le(self, other: Position) -> bool {
        self.line < other.line || (self.line == other.line && self.character <= other.character)
    }

    /// Whether `self` comes before `other` in document order, or equals it.
    pub fn le(&self, other: &Position) -> (r: bool)
        ensures
            r == self.lex_le(*other),
    {
        self.line < other.line || (self.line == other.line && self.character <= other.character)
    }
}

/// A protocol range: a pair of positions, start before end.
#[derive(Clone, Copy, Debug, PartialEq, Eq, Structural)]
pub struct PosRange {
    pub start: Position,
    pub end: Position,
}

/// A protocol text edit: replace `range` with `new_text`, given as UTF-8
/// bytes already normalized to the document's line-ending convention.
#[derive(Debug)]
pub struct TextEdit {
    pub range: PosRange,
    pub new_text: Vec<u8>,
}

/// A protocol folding range. Columns are present only in full-range mode;
/// their absence means the client folds whole lines.
#[derive(Clone, Copy, Debug, PartialEq, Eq, Structural)]
pub struct FoldingRange {
    pub start_line: u32,
    pub start_character: Option<u32>,
    pub end_line: u32,
    pub end_character: Option<u32>,
    pub kind: Option<FoldingRangeKind>,
}

#[derive(Clone, Copy, Debug, PartialEq, Eq, Structural)]
pub enum FoldingRangeKind {
    Comment,
    Imports,
}

/// A protocol location: a file locator plus a range inside the file.
#[derive(Debug)]
pub struct Location {
    pub uri: String,
    pub range: PosRange,
}

/// A protocol location link, distinguishing the target's full range from
/// its selection range and carrying the origin of the request.
#[derive(Debug)]
pub struct LocationLink {
    pub origin_selection_range: Option<PosRange>,
    pub target_uri: String,
    pub target_range: PosRange,
    pub target_selection_range: PosRange,
}

/// The shapes a definition-style response may take on the wire.
#[derive(Debug)]
pub enum GotoDefinitionResponse {
    Scalar(Location),
    Array(Vec<Location>),
    Link(Vec<LocationLink>),
}

/// Protocol symbol classifications.
#[derive(Clone, Copy, Debug, PartialEq, Eq, Structural)]
pub enum SymbolKind {
    Function,
    Struct,
    Enum,
    EnumMember,
    Interface,
    Module,
    TypeParameter,
    Field,
    Constant,
    Object,
    Variable,
}

/// Protocol completion-item classifications.
#[derive(Clone, Copy, Debug, PartialEq, Eq, Structural)]
pub enum CompletionItemKind {
    Keyword,
    Snippet,
    Module,
    Function,
    Struct,
    Enum,
    EnumMember,
    Variable,
    Field,
    Interface,
    Constant,
    Value,
    Method,
    TypeParameter,
}

/// Protocol diagnostic severities.
#[derive(Clone, Copy, Debug, PartialEq, Eq, Structural)]
pub enum DiagnosticSeverity {
    Error,
    Hint,
}

/// Protocol highlight kinds for occurrences of a symbol.
#[derive(Clone, Copy, Debug, PartialEq, Eq, Structural)]
pub enum DocumentHighlightKind {
    Read,
    Write,
}

/// Protocol markup: this layer always emits Markdown.
#[derive(Clone, Copy, Debug, PartialEq, Eq, Structural)]
pub enum MarkupKind {
    Markdown,
}

#[derive(Debug)]
pub struct MarkupContent {
    pub kind: MarkupKind,
    pub value: String,
}

/// Protocol documentation attached to a completion item.
#[derive(Debug)]
pub enum Documentation {
    MarkupContent(MarkupContent),
}

/// A protocol command a completion item may trigger on selection.
#[derive(Debug)]
pub struct Command {
    pub title: String,
    pub command: String,
}

#[derive(Clone, Copy, Debug, PartialEq, Eq, Structural)]
pub enum CompletionItemTag {
    Deprecated,
}

#[derive(Clone, Copy, Debug, PartialEq, Eq, Structural)]
pub enum InsertTextFormat {
    PlainText,
    Snippet,
}

/// A protocol completion item: the single primary edit plus the additional
/// edits that may not touch the token being completed.
#[derive(Debug)]
pub struct CompletionItem {
    pub label: String,
    pub detail: Option<String>,
    pub filter_text: Option<String>,
    pub kind: Option<CompletionItemKind>,
    pub text_edit: Option<TextEdit>,
    pub additional_text_edits: Option<Vec<TextEdit>>,
    pub documentation: Option<Documentation>,
    pub deprecated: Option<bool>,
    pub command: Option<Command>,
    pub preselect: Option<bool>,
    pub tags: Option<Vec<CompletionItemTag>>,
    pub insert_text_format: Option<InsertTextFormat>,
}

/// A parameter of a signature, labelled by its source text.
#[derive(Debug)]
pub struct ParameterInformation {
    pub label: String,
}

/// Protocol signature help for one callable.
#[derive(Debug)]
pub struct SignatureInformation {
    pub label: String,
    pub documentation: Option<Documentation>,
    pub parameters: Option<Vec<ParameterInformation>>,
}

/// A protocol reference to a document by its locator.
#[derive(Debug)]
pub struct TextDocumentIdentifier {
    pub uri: String,
}

/// A document reference that also names the version edits apply to; this
/// layer leaves the version open.
#[derive(Debug)]
pub struct VersionedTextDocumentIdentifier {
    pub uri: String,
    pub version: Option<u64>,
}

/// A whole document as the client opens it.
#[derive(Debug)]
pub struct TextDocumentItem {
    pub uri: String,
    pub language_id: String,
    pub version: u64,
    pub text: String,
}

/// A document plus a position inside it, as requests carry it.
#[derive(Debug)]
pub struct TextDocumentPositionParams {
    pub text_document: TextDocumentIdentifier,
    pub position: Position,
}

/// Edits to a single document.
#[derive(Debug)]
pub struct TextDocumentEdit {
    pub text_document: VersionedTextDocumentIdentifier,
    pub edits: Vec<TextEdit>,
}

/// A protocol file-resource operation.
#[derive(Debug)]
pub enum ResourceOp {
    Create(CreateFile),
    Rename(RenameFile),
}

#[derive(Debug)]
pub struct CreateFile {
    pub uri: String,
}

#[derive(Debug)]
pub struct RenameFile {
    pub old_uri: String,
    pub new_uri: String,
}

/// One entry of a workspace edit: a resource operation or a document edit.
#[derive(Debug)]
pub enum DocumentChangeOperation {
    Op(ResourceOp),
    Edit(TextDocumentEdit),
}

/// A protocol workspace edit, ordered with every resource operation before
/// every text edit.
#[derive(Debug)]
pub struct WorkspaceEdit {
    pub document_changes: Vec<DocumentChangeOperation>,
}

/// An inlay hint as the wire carries it.
#[derive(Debug)]
pub struct InlayHint {
    pub label: String,
    pub range: PosRange,
    pub kind: InlayHintKind,
}

#[derive(Clone, Copy, Debug, PartialEq, Eq, Structural)]
pub enum InlayHintKind {
    TypeHint,
    ParameterHint,
    ChainingHint,
}

/// A protocol call-hierarchy entry.
#[derive(Debug)]
pub struct CallHierarchyItem {
    pub name: String,
    pub kind: SymbolKind,
    pub detail: Option<String>,
    pub uri: String,
    pub range: PosRange,
    pub selection_range: PosRange,
}

/// An engine source change, shaped for the wire: a label, the workspace
/// edit, and where the cursor should land afterwards.
#[derive(Debug)]
pub struct SourceChange {
    pub label: String,
    pub workspace_edit: WorkspaceEdit,
    pub cursor_position: Option<TextDocumentPositionParams>,
}

} // verus!
