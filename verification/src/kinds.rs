//! The static kind tables: engine classification enums mapped to their
//! protocol counterparts.

use vstd::prelude::*;

use crate::protocol;

verus! {

/// The engine's syntax-node classifications that reach this layer.
#[derive(Clone, Copy, Debug, PartialEq, Eq, Structural)]
pub enum SyntaxKind {
    FnDef,
    StructDef,
    EnumDef,
    EnumVariant,
    TraitDef,
    MacroCall,
    Module,
    TypeAliasDef,
    RecordFieldDef,
    StaticDef,
    ConstDef,
    ImplDef,
    Other,
}

/// Protocol symbol kind for a syntax kind; anything unrecognized is a
/// variable.
pub open spec fn symbol_kind_of(k: SyntaxKind) -> protocol::SymbolKind {
    match k {
        SyntaxKind::FnDef => protocol::SymbolKind::Function,
        SyntaxKind::StructDef => protocol::SymbolKind::Struct,
        SyntaxKind::EnumDef => protocol::SymbolKind::Enum,
        SyntaxKind::EnumVariant => protocol::SymbolKind::EnumMember,
        SyntaxKind::TraitDef => protocol::SymbolKind::Interface,
        SyntaxKind::MacroCall => protocol::SymbolKind::Function,
        SyntaxKind::Module => protocol::SymbolKind::Module,
        SyntaxKind::TypeAliasDef => protocol::SymbolKind::TypeParameter,
        SyntaxKind::RecordFieldDef => protocol::SymbolKind::Field,
        SyntaxKind::StaticDef => protocol::SymbolKind::Constant,
        SyntaxKind::ConstDef => protocol::SymbolKind::Constant,
        SyntaxKind::ImplDef => protocol::SymbolKind::Object,
        SyntaxKind::Other => protocol::SymbolKind::Variable,
    }
}

/// Map a syntax kind to the protocol symbol kind.
pub fn to_symbol_kind(k: SyntaxKind) -> (r: protocol::SymbolKind)
    ensures
        r == symbol_kind_of(k),
{
    match k {
        SyntaxKind::FnDef => protocol::SymbolKind::Function,
        SyntaxKind::StructDef => protocol::SymbolKind::Struct,
        SyntaxKind::EnumDef => protocol::SymbolKind::Enum,
        SyntaxKind::EnumVariant => protocol::SymbolKind::EnumMember,
        SyntaxKind::TraitDef => protocol::SymbolKind::Interface,
        SyntaxKind::MacroCall => protocol::SymbolKind::Function,
        SyntaxKind::Module => protocol::SymbolKind::Module,
        SyntaxKind::TypeAliasDef => protocol::SymbolKind::TypeParameter,
        SyntaxKind::RecordFieldDef => protocol::SymbolKind::Field,
        SyntaxKind::StaticDef => protocol::SymbolKind::Constant,
        SyntaxKind::ConstDef => protocol::SymbolKind::Constant,
        SyntaxKind::ImplDef => protocol::SymbolKind::Object,
        SyntaxKind::Other => protocol::SymbolKind::Variable,
    }
}

/// How a reference site accesses the symbol it names.
#[derive(Clone, Copy, Debug, PartialEq, Eq, Structural)]
pub enum ReferenceAccess {
    Read,
    Write,
}

pub open spec fn document_highlight_kind_of(a: ReferenceAccess) -> protocol::DocumentHighlightKind {
    match a {
        ReferenceAccess::Read => protocol::DocumentHighlightKind::Read,
        ReferenceAccess::Write => protocol::DocumentHighlightKind::Write,
    }
}

/// Map a reference access to the protocol highlight kind.
pub fn to_document_highlight_kind(a: ReferenceAccess) -> (r: protocol::DocumentHighlightKind)
    ensures
        r == document_highlight_kind_of(a),
{
    match a {
        ReferenceAccess::Read => protocol::DocumentHighlightKind::Read,
        ReferenceAccess::Write => protocol::DocumentHighlightKind::Write,
    }
}

/// The engine's completion-item classifications.
#[derive(Clone, Copy, Debug, PartialEq, Eq, Structural)]
pub enum CompletionItemKind {
    Keyword,
    Snippet,
    Module,
    Function,
    Struct,
    Enum,
    EnumVariant,
    BuiltinType,
    Binding,
    Field,
    Trait,
    TypeAlias,
    Const,
    Static,
    Method,
    TypeParam,
    Macro,
    Attribute,
}

pub open spec fn completion_item_kind_of(k: CompletionItemKind) -> protocol::CompletionItemKind {
    match k {
        CompletionItemKind::Keyword => protocol::CompletionItemKind::Keyword,
        CompletionItemKind::Snippet => protocol::CompletionItemKind::Snippet,
        CompletionItemKind::Module => protocol::CompletionItemKind::Module,
        CompletionItemKind::Function => protocol::CompletionItemKind::Function,
        CompletionItemKind::Struct => protocol::CompletionItemKind::Struct,
        CompletionItemKind::Enum => protocol::CompletionItemKind::Enum,
        CompletionItemKind::EnumVariant => protocol::CompletionItemKind::EnumMember,
        CompletionItemKind::BuiltinType => protocol::CompletionItemKind::Struct,
        CompletionItemKind::Binding => protocol::CompletionItemKind::Variable,
        CompletionItemKind::Field => protocol::CompletionItemKind::Field,
        CompletionItemKind::Trait => protocol::CompletionItemKind::Interface,
        CompletionItemKind::TypeAlias => protocol::CompletionItemKind::Struct,
        CompletionItemKind::Const => protocol::CompletionItemKind::Constant,
        CompletionItemKind::Static => protocol::CompletionItemKind::Value,
        CompletionItemKind::Method => protocol::CompletionItemKind::Method,
        CompletionItemKind::TypeParam => protocol::CompletionItemKind::TypeParameter,
        CompletionItemKind::Macro => protocol::CompletionItemKind::Method,
        CompletionItemKind::Attribute => protocol::CompletionItemKind::EnumMember,
    }
}

/// Map an engine completion kind to the protocol completion kind.
pub fn to_completion_item_kind(k: CompletionItemKind) -> (r: protocol::CompletionItemKind)
    ensures
        r == completion_item_kind_of(k),
{
    match k {
        CompletionItemKind::Keyword => protocol::CompletionItemKind::Keyword,
        CompletionItemKind::Snippet => protocol::CompletionItemKind::Snippet,
        CompletionItemKind::Module => protocol::CompletionItemKind::Module,
        CompletionItemKind::Function => protocol::CompletionItemKind::Function,
        CompletionItemKind::Struct => protocol::CompletionItemKind::Struct,
        CompletionItemKind::Enum => protocol::CompletionItemKind::Enum,
        CompletionItemKind::EnumVariant => protocol::CompletionItemKind::EnumMember,
        CompletionItemKind::BuiltinType => protocol::CompletionItemKind::Struct,
        CompletionItemKind::Binding => protocol::CompletionItemKind::Variable,
        CompletionItemKind::Field => protocol::CompletionItemKind::Field,
        CompletionItemKind::Trait => protocol::CompletionItemKind::Interface,
        CompletionItemKind::TypeAlias => protocol::CompletionItemKind::Struct,
        CompletionItemKind::Const => protocol::CompletionItemKind::Constant,
        CompletionItemKind::Static => protocol::CompletionItemKind::Value,
        CompletionItemKind::Method => protocol::CompletionItemKind::Method,
        CompletionItemKind::TypeParam => protocol::CompletionItemKind::TypeParameter,
        CompletionItemKind::Macro => protocol::CompletionItemKind::Method,
        CompletionItemKind::Attribute => protocol::CompletionItemKind::EnumMember,
    }
}

/// The engine's diagnostic severities.
#[derive(Clone, Copy, Debug, PartialEq, Eq, Structural)]
pub enum Severity {
    Error,
    WeakWarning,
}

pub open spec fn diagnostic_severity_of(s: Severity) -> protocol::DiagnosticSeverity {
    match s {
        Severity::Error => protocol::DiagnosticSeverity::Error,
        Severity::WeakWarning => protocol::DiagnosticSeverity::Hint,
    }
}

/// Map an engine severity to the protocol severity.
pub fn to_diagnostic_severity(s: Severity) -> (r: protocol::DiagnosticSeverity)
    ensures
        r == diagnostic_severity_of(s),
{
    match s {
        Severity::Error => protocol::DiagnosticSeverity::Error,
        Severity::WeakWarning => protocol::DiagnosticSeverity::Hint,
    }
}

} // verus!
