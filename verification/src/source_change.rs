//! Conversion of an engine source change — text edits per file, file
//! creations and moves, and a cursor destination — into a protocol
//! workspace edit, with every resource operation ordered before every text
//! edit.

use vstd::prelude::*;

use crate::edits::{
    applied, apply_edits, edits_ordered, offset_to_position, position_at, translate_edits,
    translated, views_of,
};
use crate::line_index::LineIndex;
use crate::protocol::{
    self, DocumentChangeOperation, ResourceOp, TextDocumentEdit, TextDocumentIdentifier,
    TextDocumentPositionParams, VersionedTextDocumentIdentifier, WorkspaceEdit,
};
use crate::text::AtomTextEdit;
use crate::world::{FilePosition, WorldSnapshot};
use crate::ConvError;

verus! {

/// The engine's edits to one file.
#[derive(Debug)]
pub struct SourceFileEdit {
    pub file_id: u32,
    pub edit: Vec<AtomTextEdit>,
}

/// The engine's file-resource operations.
#[derive(Debug)]
pub enum FileSystemEdit {
    CreateFile { source_root: u32, path: String },
    MoveFile { src: u32, dst_source_root: u32, dst_path: String },
}

/// A whole engine source change.
#[derive(Debug)]
pub struct SourceChange {
    pub label: String,
    pub source_file_edits: Vec<SourceFileEdit>,
    pub file_system_edits: Vec<FileSystemEdit>,
    /// Where the cursor should land, an offset into the named file *after*
    /// that file's edits are applied.
    pub cursor_position: Option<FilePosition>,
}

/// The snapshot can resolve every handle the resource operation names.
pub open spec fn fs_edit_resolvable(w: &WorldSnapshot, e: FileSystemEdit) -> bool {
    match e {
        FileSystemEdit::CreateFile { source_root, .. } => w.spec_has_root(source_root),
        FileSystemEdit::MoveFile { src, dst_source_root, .. } => w.spec_has_file(src)
            && w.spec_has_root(dst_source_root),
    }
}

/// `op` is the protocol resource operation for `e`.
pub open spec fn resource_op_matches(w: &WorldSnapshot, e: FileSystemEdit, op: ResourceOp) -> bool {
    match e {
        FileSystemEdit::CreateFile { source_root, path } => match op {
            ResourceOp::Create(c) => c.uri@ == w.spec_root_uri_of(source_root) + "/"@ + path@,
            _ => false,
        },
        FileSystemEdit::MoveFile { src, dst_source_root, dst_path } => match op {
            ResourceOp::Rename(r) => {
                &&& r.old_uri@ == w.spec_uri_of(src)
                &&& r.new_uri@ == w.spec_root_uri_of(dst_source_root) + "/"@ + dst_path@
            },
            _ => false,
        },
    }
}

/// The edit list is ordered and in bounds for its file's document,
/// whenever the snapshot knows the file.
pub open spec fn sfe_wf(w: &WorldSnapshot, sfe: SourceFileEdit) -> bool {
    w.spec_has_file(sfe.file_id) ==> edits_ordered(views_of(sfe.edit@), w.spec_doc_of(
        sfe.file_id).len() as int)
}

/// `de` is the protocol document edit for `sfe`.
pub open spec fn document_edit_matches(w: &WorldSnapshot, sfe: SourceFileEdit, de:
    TextDocumentEdit) -> bool {
    &&& de.text_document.uri@ == w.spec_uri_of(sfe.file_id)
    &&& de.text_document.version is None
    &&& de.edits@.len() == sfe.edit@.len()
    &&& forall|i: int|
        0 <= i < sfe.edit@.len() ==> translated(w.spec_doc_of(sfe.file_id), sfe.edit@[i]@,
            w.spec_endings_of(sfe.file_id), #[trigger] de.edits@[i])
}

/// The edit list of the first entry for `id`, if any.
pub open spec fn find_edit(sfes: Seq<SourceFileEdit>, id: u32) -> Option<Seq<AtomTextEdit>>
    decreases sfes.len(),
{
    if sfes.len() == 0 {
        None
    } else if sfes[0].file_id == id {
        Some(sfes[0].edit@)
    } else {
        find_edit(sfes.skip(1), id)
    }
}

/// The document the cursor offset refers to: the cursor file's document
/// with its edits (if the change carries any for that file) applied.
pub open spec fn cursor_doc(w: &WorldSnapshot, sfes: Seq<SourceFileEdit>, fp: FilePosition)
    -> Seq<u8> {
    match find_edit(sfes, fp.file_id) {
        Some(ed) => applied(w.spec_doc_of(fp.file_id), views_of(ed)),
        None => w.spec_doc_of(fp.file_id),
    }
}

/// Everything the conversion of a change needs to resolve, resolves, and
/// the cursor offset lies inside the document it refers to.
pub open spec fn change_ok(w: &WorldSnapshot, change: SourceChange) -> bool {
    &&& forall|i: int|
        0 <= i < change.file_system_edits@.len() ==> fs_edit_resolvable(w,
            #[trigger] change.file_system_edits@[i])
    &&& forall|i: int|
        0 <= i < change.source_file_edits@.len() ==> w.spec_has_file(
            (#[trigger] change.source_file_edits@[i]).file_id)
    &&& match change.cursor_position {
        Some(fp) => {
            &&& w.spec_has_file(fp.file_id)
            &&& cursor_doc(w, change.source_file_edits@, fp).len() <= 0x7FFF_FFFF
            &&& fp.offset <= cursor_doc(w, change.source_file_edits@, fp).len()
        },
        None => true,
    }
}

/// The first entry for `id` in the change's file edits, by index.
fn find_edit_index(sfes: &Vec<SourceFileEdit>, id: u32) -> (r: Option<usize>)
    ensures
        match r {
            Some(j) => {
                &&& j < sfes@.len()
                &&& sfes@[j as int].file_id == id
                &&& find_edit(sfes@, id) == Some(sfes@[j as int].edit@)
            },
            None => find_edit(sfes@, id) is None,
        },
{
    let mut k: usize = 0;
    proof {
        assert(sfes@.skip(0) =~= sfes@);
    }
    while k < sfes.len()
        invariant
            k <= sfes@.len(),
            find_edit(sfes@, id) == find_edit(sfes@.skip(k as int), id),
        decreases sfes@.len() - k,
    {
        proof {
            let tail = sfes@.skip(k as int);
            assert(tail.len() == sfes@.len() - k);
            assert(tail[0] == sfes@[k as int]);
            assert(tail.skip(1) =~= sfes@.skip(k + 1));
        }
        if sfes[k].file_id == id {
            return Some(k);
        }
        k = k + 1;
    }
    None
}

/// Convert one file-resource edit to the protocol operation, resolving
/// the handles it names.
pub fn file_system_edit_to_resource_op(world: &WorldSnapshot, e: &FileSystemEdit) -> (r: Result<
    ResourceOp,
    ConvError,
>)
    requires
        world.wf(),
    ensures
        r is Ok <==> fs_edit_resolvable(world, *e),
        match r {
            Ok(op) => resource_op_matches(world, *e, op),
            Err(err) => err == ConvError::UnknownFile || err == ConvError::UnknownRoot,
        },
{
    match e {
        FileSystemEdit::CreateFile { source_root, path } => {
            let uri = match world.path_to_uri(*source_root, path) {
                Ok(u) => u,
                Err(err) => {
                    return Err(err);
                },
            };
            Ok(ResourceOp::Create(protocol::CreateFile { uri }))
        },
        FileSystemEdit::MoveFile { src, dst_source_root, dst_path } => {
            let old_uri = match world.file_id_to_uri(*src) {
                Ok(u) => u,
                Err(err) => {
                    return Err(err);
                },
            };
            let new_uri = match world.path_to_uri(*dst_source_root, dst_path) {
                Ok(u) => u,
                Err(err) => {
                    return Err(err);
                },
            };
            Ok(ResourceOp::Rename(protocol::RenameFile { old_uri, new_uri }))
        },
    }
}

/// Convert one file's edits to a protocol document edit, translating each
/// atomic edit through that file's index and line-ending convention.
pub fn source_file_edit_to_document_edit(world: &WorldSnapshot, sfe: &SourceFileEdit) -> (r:
    Result<TextDocumentEdit, ConvError>)
    requires
        world.wf(),
        sfe_wf(world, *sfe),
    ensures
        r is Ok <==> world.spec_has_file(sfe.file_id),
        match r {
            Ok(de) => document_edit_matches(world, *sfe, de),
            Err(err) => err == ConvError::UnknownFile,
        },
{
    let uri = match world.file_id_to_uri(sfe.file_id) {
        Ok(u) => u,
        Err(err) => {
            return Err(err);
        },
    };
    let index = match world.file_line_index(sfe.file_id) {
        Ok(ix) => ix,
        Err(err) => {
            return Err(err);
        },
    };
    let endings = match world.file_line_endings(sfe.file_id) {
        Ok(le) => le,
        Err(err) => {
            return Err(err);
        },
    };
    proof {
        assert forall|i: int|
            0 <= i < sfe.edit@.len() implies (#[trigger] sfe.edit@[i]).delete.in_bounds(
            index@.len() as int) by {
            assert(views_of(sfe.edit@)[i] == sfe.edit@[i]@);
            assert(views_of(sfe.edit@)[i].delete.in_bounds(
                world.spec_doc_of(sfe.file_id).len() as int));
        }
    }
    let edits = translate_edits(&sfe.edit, index, endings);
    Ok(TextDocumentEdit {
        text_document: VersionedTextDocumentIdentifier { uri, version: None },
        edits,
    })
}

/// Convert a whole source change: the cursor offset becomes a position in
/// the cursor file's post-edit document, and the workspace edit lists
/// every resource operation before every document edit, each half in
/// input order.
pub fn source_change_to_protocol(world: &WorldSnapshot, change: &SourceChange) -> (r: Result<
    protocol::SourceChange,
    ConvError,
>)
    requires
        world.wf(),
        forall|i: int|
            0 <= i < change.source_file_edits@.len() ==> sfe_wf(world,
                #[trigger] change.source_file_edits@[i]),
    ensures
        r is Ok <==> change_ok(world, *change),
        match r {
            Ok(sc) => {
                &&& sc.label == change.label
                &&& sc.workspace_edit.document_changes@.len() == change.file_system_edits@.len()
                    + change.source_file_edits@.len()
                &&& forall|i: int|
                    0 <= i < change.file_system_edits@.len() ==> match #[trigger] sc
                        .workspace_edit.document_changes@[i] {
                        DocumentChangeOperation::Op(op) => resource_op_matches(world,
                            change.file_system_edits@[i], op),
                        _ => false,
                    }
                &&& forall|j: int|
                    0 <= j < change.source_file_edits@.len() ==> match #[trigger] sc
                        .workspace_edit.document_changes@[change.file_system_edits@.len() + j] {
                        DocumentChangeOperation::Edit(de) => document_edit_matches(world,
                            change.source_file_edits@[j], de),
                        _ => false,
                    }
                &&& match change.cursor_position {
                    Some(fp) => match sc.cursor_position {
                        Some(ref params) => {
                            &&& params.text_document.uri@ == world.spec_uri_of(fp.file_id)
                            &&& params.position == position_at(
                                cursor_doc(world, change.source_file_edits@, fp),
                                fp.offset as int,
                            )
                        },
                        None => false,
                    },
                    None => sc.cursor_position is None,
                }
            },
            Err(err) => err == ConvError::UnknownFile || err == ConvError::UnknownRoot
                || err == ConvError::OffsetOutOfBounds || err == ConvError::DocumentTooLarge,
        },
{
    let cursor_position = match &change.cursor_position {
        None => None,
        Some(pos) => {
            let index = match world.file_line_index(pos.file_id) {
                Ok(ix) => ix,
                Err(err) => {
                    return Err(err);
                },
            };
            let ghost fp = change.cursor_position->Some_0;
            let position = match find_edit_index(&change.source_file_edits, pos.file_id) {
                Some(j) => {
                    let sfe = &change.source_file_edits[j];
                    proof {
                        assert(sfe_wf(world, change.source_file_edits@[j as int]));
                    }
                    let new_text = apply_edits(index.text(), &sfe.edit);
                    proof {
                        assert(new_text@ == cursor_doc(world, change.source_file_edits@, fp));
                    }
                    if new_text.len() > 0x7FFF_FFFF {
                        return Err(ConvError::DocumentTooLarge);
                    }
                    let new_index = LineIndex::new(new_text);
                    if pos.offset > new_index.len() {
                        return Err(ConvError::OffsetOutOfBounds);
                    }
                    offset_to_position(&new_index, pos.offset)
                },
                None => {
                    proof {
                        assert(index@ == cursor_doc(world, change.source_file_edits@, fp));
                    }
                    if pos.offset > index.len() {
                        return Err(ConvError::OffsetOutOfBounds);
                    }
                    offset_to_position(index, pos.offset)
                },
            };
            let uri = match world.file_id_to_uri(pos.file_id) {
                Ok(u) => u,
                Err(err) => {
                    return Err(err);
                },
            };
            Some(TextDocumentPositionParams {
                text_document: TextDocumentIdentifier { uri },
                position,
            })
        },
    };

    let mut document_changes: Vec<DocumentChangeOperation> = Vec::new();
    let mut i: usize = 0;
    let ghost nf = change.file_system_edits@.len() as int;
    while i < change.file_system_edits.len()
        invariant
            i <= nf,
            nf == change.file_system_edits@.len() as int,
            world.wf(),
            document_changes@.len() == i,
            forall|k: int|
                0 <= k < i ==> fs_edit_resolvable(world, #[trigger] change.file_system_edits@[k]),
            forall|k: int|
                0 <= k < i ==> match #[trigger] document_changes@[k] {
                    DocumentChangeOperation::Op(op) => resource_op_matches(world,
                        change.file_system_edits@[k], op),
                    _ => false,
                },
        decreases nf - i,
    {
        let op = match file_system_edit_to_resource_op(world, &change.file_system_edits[i]) {
            Ok(op) => op,
            Err(err) => {
                return Err(err);
            },
        };
        document_changes.push(DocumentChangeOperation::Op(op));
        i = i + 1;
    }
    let mut j: usize = 0;
    while j < change.source_file_edits.len()
        invariant
            j <= change.source_file_edits@.len(),
            nf == change.file_system_edits@.len() as int,
            world.wf(),
            forall|k: int|
                0 <= k < change.source_file_edits@.len() ==> sfe_wf(world,
                    #[trigger] change.source_file_edits@[k]),
            document_changes@.len() == nf + j,
            forall|k: int|
                0 <= k < nf ==> fs_edit_resolvable(world, #[trigger] change.file_system_edits@[k]),
            forall|k: int|
                0 <= k < j ==> world.spec_has_file(
                    (#[trigger] change.source_file_edits@[k]).file_id),
            forall|k: int|
                0 <= k < nf ==> match #[trigger] document_changes@[k] {
                    DocumentChangeOperation::Op(op) => resource_op_matches(world,
                        change.file_system_edits@[k], op),
                    _ => false,
                },
            forall|k: int|
                0 <= k < j ==> match #[trigger] document_changes@[nf + k] {
                    DocumentChangeOperation::Edit(de) => document_edit_matches(world,
                        change.source_file_edits@[k], de),
                    _ => false,
                },
        decreases change.source_file_edits@.len() - j,
    {
        let de = match source_file_edit_to_document_edit(world, &change.source_file_edits[j]) {
            Ok(de) => de,
            Err(err) => {
                return Err(err);
            },
        };
        document_changes.push(DocumentChangeOperation::Edit(de));
        j = j + 1;
    }

    Ok(protocol::SourceChange {
        label: change.label.clone(),
        workspace_edit: WorkspaceEdit { document_changes },
        cursor_position,
    })
}

} // verus!
