//! Conversion of an engine completion item into the protocol shape: one
//! primary edit covering the token being completed, everything else demoted
//! to additional edits, and the item's flags mapped field by field.

use vstd::prelude::*;

use crate::edits::{
    additional_of, covering_count, covering_insert, covers, split_completion_edits,
    split_ok, translate_edits, translated, translate_atom_edit, views_of, AtomEditView,
    lemma_additional_in_bounds,
};
use crate::kinds;
use crate::line_index::LineIndex;
use crate::protocol;
use crate::text::{AtomTextEdit, LineEndings, TextRange};
use crate::ConvError;

verus! {

/// Engine documentation: the already-rendered markdown text of an item's
/// docs.
#[derive(Debug)]
pub struct Documentation(pub String);

/// Whether the inserted text is a snippet or plain text.
#[derive(Clone, Copy, Debug, PartialEq, Eq, Structural)]
pub enum InsertTextFormat {
    PlainText,
    Snippet,
}

/// The engine's ranking of a completion against the expected type and name.
#[derive(Clone, Copy, Debug, PartialEq, Eq, Structural)]
pub enum CompletionScore {
    TypeMatch,
    TypeAndNameMatch,
}

/// A completion produced by the engine, as this layer consumes it: display
/// strings, classification, the token span being completed, and the edit
/// set to apply on acceptance.
#[derive(Debug)]
pub struct CompletionItem {
    pub label: String,
    pub detail: Option<String>,
    /// What the client should filter on; the engine resolves its fallback
    /// to the label before handing the item over.
    pub lookup: String,
    pub kind: Option<kinds::CompletionItemKind>,
    /// The span of the token being completed.
    pub source_range: TextRange,
    /// The edit set to apply when the item is accepted.
    pub text_edit: Vec<AtomTextEdit>,
    pub documentation: Option<Documentation>,
    pub deprecated: bool,
    /// The item wants parameter hints triggered after insertion.
    pub trigger_call_info: bool,
    pub score: Option<CompletionScore>,
    pub insert_text_format: InsertTextFormat,
}

/// Wrap engine documentation as protocol markup.
pub fn to_documentation(doc: &Documentation) -> (r: protocol::Documentation)
    ensures
        match r {
            protocol::Documentation::MarkupContent(mc) => {
                &&& mc.kind == protocol::MarkupKind::Markdown
                &&& mc.value == doc.0
            },
        },
{
    protocol::Documentation::MarkupContent(protocol::MarkupContent {
        kind: protocol::MarkupKind::Markdown,
        value: doc.0.clone(),
    })
}

/// Convert one engine completion item to the protocol item.
///
/// The edit set is split around the source range: the edit covering it
/// becomes the single primary edit, its trimmed-off head and all other
/// edits the additional edits. An edit set that does not fit the protocol's
/// completion shape is reported as the corresponding error.
pub fn to_completion_item(item: &CompletionItem, index: &LineIndex, endings: LineEndings) -> (r:
    Result<protocol::CompletionItem, ConvError>)
    requires
        index.wf(),
        item.source_range.wf(),
        item.source_range.end <= index@.len(),
        forall|i: int|
            0 <= i < item.text_edit@.len() ==> (#[trigger] item.text_edit@[i]).delete.in_bounds(
                index@.len() as int),
    ensures
        r is Ok <==> split_ok(views_of(item.text_edit@), item.source_range),
        match r {
            Ok(c) => {
                &&& c.label == item.label
                &&& c.detail == item.detail
                &&& c.filter_text == Some(item.lookup)
                &&& c.kind == match item.kind {
                    Some(k) => Some(kinds::completion_item_kind_of(k)),
                    None => None,
                }
                &&& c.text_edit is Some
                &&& translated(
                    index@,
                    AtomEditView {
                        delete: item.source_range,
                        insert: covering_insert(views_of(item.text_edit@), item.source_range),
                    },
                    endings,
                    c.text_edit->Some_0,
                )
                &&& c.additional_text_edits is Some
                &&& c.additional_text_edits->Some_0@.len() == additional_of(
                    views_of(item.text_edit@), item.source_range).len()
                &&& forall|j: int|
                    0 <= j < c.additional_text_edits->Some_0@.len() ==> translated(
                        index@,
                        additional_of(views_of(item.text_edit@), item.source_range)[j],
                        endings,
                        #[trigger] c.additional_text_edits->Some_0@[j],
                    )
                &&& match item.documentation {
                    Some(ref d) => match c.documentation {
                        Some(protocol::Documentation::MarkupContent(ref mc)) => {
                            &&& mc.kind == protocol::MarkupKind::Markdown
                            &&& mc.value == d.0
                        },
                        None => false,
                    },
                    None => c.documentation is None,
                }
                &&& c.deprecated == Some(item.deprecated)
                &&& if item.trigger_call_info {
                    match c.command {
                        Some(ref cmd) => {
                            &&& cmd.title@ == "triggerParameterHints"@
                            &&& cmd.command@ == "editor.action.triggerParameterHints"@
                        },
                        None => false,
                    }
                } else {
                    c.command is None
                }
                &&& c.preselect == if item.score is Some {
                    Some(true)
                } else {
                    None::<bool>
                }
                &&& if item.deprecated {
                    match c.tags {
                        Some(tags) => tags@ =~= seq![protocol::CompletionItemTag::Deprecated],
                        None => false,
                    }
                } else {
                    c.tags is None
                }
                &&& c.insert_text_format == Some(
                    match item.insert_text_format {
                        InsertTextFormat::PlainText => protocol::InsertTextFormat::PlainText,
                        InsertTextFormat::Snippet => protocol::InsertTextFormat::Snippet,
                    },
                )
            },
            Err(e) => {
                &&& (e == ConvError::NoPrimaryEdit ==> covering_count(views_of(item.text_edit@),
                    item.source_range) == 0)
                &&& (e == ConvError::DuplicatePrimaryEdit ==> covering_count(
                    views_of(item.text_edit@), item.source_range) >= 2)
                &&& (e == ConvError::PrimaryEndMismatch ==> exists|i: int|
                    0 <= i < views_of(item.text_edit@).len() && covers(
                        #[trigger] views_of(item.text_edit@)[i], item.source_range)
                        && views_of(item.text_edit@)[i].delete.end != item.source_range.end)
                &&& (e == ConvError::EditOverlapsSourceRange ==> exists|i: int|
                    0 <= i < views_of(item.text_edit@).len() && !covers(
                        #[trigger] views_of(item.text_edit@)[i], item.source_range)
                        && views_of(item.text_edit@)[i].delete.spec_touches(item.source_range))
                &&& (e == ConvError::NoPrimaryEdit || e == ConvError::DuplicatePrimaryEdit
                    || e == ConvError::PrimaryEndMismatch
                    || e == ConvError::EditOverlapsSourceRange)
            },
        },
{
    let ghost ds = views_of(item.text_edit@);
    let split = match split_completion_edits(&item.text_edit, item.source_range) {
        Ok(s) => s,
        Err(e) => {
            return Err(e);
        },
    };
    proof {
        lemma_additional_in_bounds(ds, item.source_range, index@.len() as int);
        assert(forall|j: int|
            0 <= j < split.additional@.len() ==> (#[trigger] split.additional@[j])@
                == additional_of(ds, item.source_range)[j]);
    }
    let primary = translate_atom_edit(&split.primary, index, endings);
    let additional = translate_edits(&split.additional, index, endings);

    let kind = match item.kind {
        Some(k) => Some(kinds::to_completion_item_kind(k)),
        None => None,
    };
    let documentation = match &item.documentation {
        Some(d) => Some(to_documentation(d)),
        None => None,
    };
    let command = if item.trigger_call_info {
        Some(protocol::Command {
            title: "triggerParameterHints".to_owned(),
            command: "editor.action.triggerParameterHints".to_owned(),
        })
    } else {
        None
    };
    let preselect = if item.score.is_some() {
        Some(true)
    } else {
        None
    };
    let tags = if item.deprecated {
        let mut v: Vec<protocol::CompletionItemTag> = Vec::new();
        v.push(protocol::CompletionItemTag::Deprecated);
        proof {
            assert(v@ =~= seq![protocol::CompletionItemTag::Deprecated]);
        }
        Some(v)
    } else {
        None
    };
    let insert_text_format = match item.insert_text_format {
        InsertTextFormat::PlainText => protocol::InsertTextFormat::PlainText,
        InsertTextFormat::Snippet => protocol::InsertTextFormat::Snippet,
    };
    let detail = match &item.detail {
        Some(d) => Some(d.clone()),
        None => None,
    };

    Ok(protocol::CompletionItem {
        label: item.label.clone(),
        detail,
        filter_text: Some(item.lookup.clone()),
        kind,
        text_edit: Some(primary),
        additional_text_edits: Some(additional),
        documentation,
        deprecated: Some(item.deprecated),
        command,
        preselect,
        tags,
        insert_text_format: Some(insert_text_format),
    })
}

} // verus!
