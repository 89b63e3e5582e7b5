//! Conversion of engine inlay hints to the wire shape.

use vstd::prelude::*;

use crate::edits::{pos_range_of, range_to_pos_range};
use crate::line_index::LineIndex;
use crate::protocol;
use crate::text::TextRange;

verus! {

/// What an engine inlay hint annotates.
#[derive(Clone, Copy, Debug, PartialEq, Eq, Structural)]
pub enum InlayKind {
    ParameterHint,
    TypeHint,
    ChainingHint,
}

/// An inlay hint as the engine produces it.
#[derive(Debug)]
pub struct InlayHint {
    pub range: TextRange,
    pub kind: InlayKind,
    pub label: String,
}

/// The wire kind for an engine inlay kind.
pub open spec fn inlay_hint_kind_of(k: InlayKind) -> protocol::InlayHintKind {
    match k {
        InlayKind::ParameterHint => protocol::InlayHintKind::ParameterHint,
        InlayKind::TypeHint => protocol::InlayHintKind::TypeHint,
        InlayKind::ChainingHint => protocol::InlayHintKind::ChainingHint,
    }
}

/// Convert one inlay hint: its label carried over, its range mapped.
pub fn to_inlay_hint(hint: &InlayHint, index: &LineIndex) -> (r: protocol::InlayHint)
    requires
        index.wf(),
        hint.range.in_bounds(index@.len() as int),
    ensures
        r.label == hint.label,
        r.range == pos_range_of(index@, hint.range),
        r.kind == inlay_hint_kind_of(hint.kind),
{
    protocol::InlayHint {
        label: hint.label.clone(),
        range: range_to_pos_range(index, hint.range),
        kind: match hint.kind {
            InlayKind::ParameterHint => protocol::InlayHintKind::ParameterHint,
            InlayKind::TypeHint => protocol::InlayHintKind::TypeHint,
            InlayKind::ChainingHint => protocol::InlayHintKind::ChainingHint,
        },
    }
}

} // verus!
