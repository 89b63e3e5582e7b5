//! Translation layer between an analysis engine that addresses source text by
//! UTF-8 byte offsets and an editor protocol that addresses it by zero-based
//! line number plus UTF-16 code-unit column.
//!
//! The engine-side values (text ranges, atomic edits, folds, navigation
//! targets, classification enums) are plain data owned by this crate; the
//! protocol-side values are mirrored here as plain structs, and an adapter
//! outside the library converts them to the wire representation.

pub mod completion;
pub mod edits;
pub mod folding;
pub mod inlay;
pub mod kinds;
pub mod line_index;
pub mod navigation;
pub mod protocol;
pub mod semantic;
pub mod signature;
pub mod source_change;
pub mod text;
pub mod world;

use vstd::prelude::*;

verus! {

/// Errors a conversion can report instead of aborting.
///
/// `UnknownFile`, `UnknownUri` and `UnknownRoot` are resolution failures: the
/// registry snapshot does not know the handle or locator. The remaining
/// variants report engine output that violates this layer's preconditions.
#[derive(Clone, Copy, Debug, PartialEq, Eq, Structural)]
pub enum ConvError {
    /// No locator is registered for the file handle.
    UnknownFile,
    /// No file handle is registered for the locator.
    UnknownUri,
    /// No base locator is registered for the source root.
    UnknownRoot,
    /// No edit in a completion edit set covers the source range.
    NoPrimaryEdit,
    /// More than one edit in a completion edit set covers the source range.
    DuplicatePrimaryEdit,
    /// An edit strictly containing the source range does not share its end.
    PrimaryEndMismatch,
    /// An edit that does not cover the source range intersects it.
    EditOverlapsSourceRange,
    /// A cursor offset lies outside the document it points into.
    OffsetOutOfBounds,
    /// A protocol range whose end position precedes its start.
    BackwardRange,
    /// An edited document grew beyond the size a line index can carry.
    DocumentTooLarge,
}

} // verus!
