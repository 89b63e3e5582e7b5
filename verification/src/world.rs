//! The identity resolver: a read-only snapshot of the registry that maps
//! file handles to protocol locators and back, and holds each open
//! document's line index and line-ending convention.
//!
//! The snapshot is plain data supplied per request by the caller; every
//! lookup here is a verified scan of it.

use vstd::prelude::*;
use vstd::string::StringExecFns;

use crate::line_index::LineIndex;
use crate::protocol;
use crate::text::{LineEndings, TextRange};
use crate::ConvError;

verus! {

/// One known file: its handle, its locator, its document.
pub struct FileEntry {
    pub file_id: u32,
    pub uri: String,
    pub index: LineIndex,
    pub line_endings: LineEndings,
}

/// One source root and the locator it is mounted at.
pub struct SourceRootEntry {
    pub root_id: u32,
    pub base_uri: String,
}

/// An engine position: a file handle plus a byte offset into its document.
#[derive(Clone, Copy, Debug, PartialEq, Eq, Structural)]
pub struct FilePosition {
    pub file_id: u32,
    pub offset: usize,
}

/// An engine range: a file handle plus a byte range into its document.
#[derive(Clone, Copy, Debug, PartialEq, Eq, Structural)]
pub struct FileRange {
    pub file_id: u32,
    pub range: TextRange,
}

/// The registry snapshot a request runs against.
pub struct WorldSnapshot {
    pub files: Vec<FileEntry>,
    pub roots: Vec<SourceRootEntry>,
    /// Whether the client can take location links in responses.
    pub location_link_capable: bool,
}

impl WorldSnapshot {
    /// Handles and locators are unambiguous, and every document's index is
    /// within the size the indices carry.
    pub open spec fn wf(&self) -> bool {
        &&& forall|i: int, j: int|
            0 <= i < j < self.files@.len() ==> (#[trigger] self.files@[i]).file_id != (
            #[trigger] self.files@[j]).file_id
        &&& forall|i: int, j: int|
            0 <= i < j < self.files@.len() ==> (#[trigger] self.files@[i]).uri@ != (
            #[trigger] self.files@[j]).uri@
        &&& forall|i: int| 0 <= i < self.files@.len() ==> (#[trigger] self.files@[i]).index.wf()
        &&& forall|i: int, j: int|
            0 <= i < j < self.roots@.len() ==> (#[trigger] self.roots@[i]).root_id != (
            #[trigger] self.roots@[j]).root_id
    }

    /// A file with this handle is in the snapshot.
    pub open spec fn spec_has_file(&self, id: u32) -> bool {
        exists|i: int| 0 <= i < self.files@.len() && (#[trigger] self.files@[i]).file_id == id
    }

    /// The entry of the file with this handle.
    pub open spec fn spec_file(&self, id: u32) -> FileEntry {
        self.files@[choose|i: int|
            0 <= i < self.files@.len() && (#[trigger] self.files@[i]).file_id == id]
    }

    /// The locator of the file with this handle.
    pub open spec fn spec_uri_of(&self, id: u32) -> Seq<char> {
        self.spec_file(id).uri@
    }

    /// The document bytes of the file with this handle.
    pub open spec fn spec_doc_of(&self, id: u32) -> Seq<u8> {
        self.spec_file(id).index@
    }

    /// The line-ending convention of the file with this handle.
    pub open spec fn spec_endings_of(&self, id: u32) -> LineEndings {
        self.spec_file(id).line_endings
    }

    /// A root with this handle is in the snapshot.
    pub open spec fn spec_has_root(&self, id: u32) -> bool {
        exists|i: int| 0 <= i < self.roots@.len() && (#[trigger] self.roots@[i]).root_id == id
    }

    /// The base locator of the root with this handle.
    pub open spec fn spec_root_uri_of(&self, id: u32) -> Seq<char> {
        self.roots@[choose|i: int|
            0 <= i < self.roots@.len() && (#[trigger] self.roots@[i]).root_id == id].base_uri@
    }

    /// In a well-formed snapshot, any entry holding the handle is the entry
    /// the specification functions speak of.
    pub proof fn lemma_file_entry_unique(&self, id: u32, k: int)
        requires
            self.wf(),
            0 <= k < self.files@.len(),
            self.files@[k].file_id == id,
        ensures
            self.spec_has_file(id),
            self.spec_file(id) == self.files@[k],
    {
        assert(self.spec_has_file(id));
        let c = choose|i: int|
            0 <= i < self.files@.len() && (#[trigger] self.files@[i]).file_id == id;
        if c < k {
            assert(self.files@[c].file_id != self.files@[k].file_id);
        } else if k < c {
            assert(self.files@[k].file_id != self.files@[c].file_id);
        }
    }

    /// Likewise for roots.
    pub proof fn lemma_root_entry_unique(&self, id: u32, k: int)
        requires
            self.wf(),
            0 <= k < self.roots@.len(),
            self.roots@[k].root_id == id,
        ensures
            self.spec_has_root(id),
            self.spec_root_uri_of(id) == self.roots@[k].base_uri@,
    {
        assert(self.spec_has_root(id));
        let c = choose|i: int|
            0 <= i < self.roots@.len() && (#[trigger] self.roots@[i]).root_id == id;
        if c < k {
            assert(self.roots@[c].root_id != self.roots@[k].root_id);
        } else if k < c {
            assert(self.roots@[k].root_id != self.roots@[c].root_id);
        }
    }

    /// The locator of a file handle; unknown handles are a resolution
    /// failure.
    pub fn file_id_to_uri(&self, id: u32) -> (r: Result<String, ConvError>)
        requires
            self.wf(),
        ensures
            match r {
                Ok(u) => self.spec_has_file(id) && u@ == self.spec_uri_of(id),
                Err(e) => e == ConvError::UnknownFile && !self.spec_has_file(id),
            },
    {
        let mut k: usize = 0;
        while k < self.files.len()
            invariant
                k <= self.files@.len(),
                self.wf(),
                forall|i: int| 0 <= i < k ==> (#[trigger] self.files@[i]).file_id != id,
            decreases self.files@.len() - k,
        {
            if self.files[k].file_id == id {
                proof {
                    self.lemma_file_entry_unique(id, k as int);
                }
                return Ok(self.files[k].uri.clone());
            }
            k = k + 1;
        }
        Err(ConvError::UnknownFile)
    }

    /// The file handle of a locator; unknown locators are a resolution
    /// failure.
    pub fn uri_to_file_id(&self, uri: &String) -> (r: Result<u32, ConvError>)
        requires
            self.wf(),
        ensures
            match r {
                Ok(id) => exists|i: int|
                    0 <= i < self.files@.len() && (#[trigger] self.files@[i]).uri@ == uri@
                        && self.files@[i].file_id == id,
                Err(e) => e == ConvError::UnknownUri && forall|i: int|
                    0 <= i < self.files@.len() ==> (#[trigger] self.files@[i]).uri@ != uri@,
            },
    {
        let mut k: usize = 0;
        while k < self.files.len()
            invariant
                k <= self.files@.len(),
                forall|i: int| 0 <= i < k ==> (#[trigger] self.files@[i]).uri@ != uri@,
            decreases self.files@.len() - k,
        {
            if self.files[k].uri.eq(uri) {
                return Ok(self.files[k].file_id);
            }
            k = k + 1;
        }
        Err(ConvError::UnknownUri)
    }

    /// The line index of a file's document.
    pub fn file_line_index(&self, id: u32) -> (r: Result<&LineIndex, ConvError>)
        requires
            self.wf(),
        ensures
            match r {
                Ok(ix) => {
                    &&& self.spec_has_file(id)
                    &&& ix@ == self.spec_doc_of(id)
                    &&& ix.wf()
                },
                Err(e) => e == ConvError::UnknownFile && !self.spec_has_file(id),
            },
    {
        let mut k: usize = 0;
        while k < self.files.len()
            invariant
                k <= self.files@.len(),
                self.wf(),
                forall|i: int| 0 <= i < k ==> (#[trigger] self.files@[i]).file_id != id,
            decreases self.files@.len() - k,
        {
            if self.files[k].file_id == id {
                proof {
                    self.lemma_file_entry_unique(id, k as int);
                }
                return Ok(&self.files[k].index);
            }
            k = k + 1;
        }
        Err(ConvError::UnknownFile)
    }

    /// The line-ending convention of a file's document.
    pub fn file_line_endings(&self, id: u32) -> (r: Result<LineEndings, ConvError>)
        requires
            self.wf(),
        ensures
            match r {
                Ok(e) => self.spec_has_file(id) && e == self.spec_endings_of(id),
                Err(e) => e == ConvError::UnknownFile && !self.spec_has_file(id),
            },
    {
        let mut k: usize = 0;
        while k < self.files.len()
            invariant
                k <= self.files@.len(),
                self.wf(),
                forall|i: int| 0 <= i < k ==> (#[trigger] self.files@[i]).file_id != id,
            decreases self.files@.len() - k,
        {
            if self.files[k].file_id == id {
                proof {
                    self.lemma_file_entry_unique(id, k as int);
                }
                return Ok(self.files[k].line_endings);
            }
            k = k + 1;
        }
        Err(ConvError::UnknownFile)
    }

    /// The locator of a path under a source root: the root's base locator,
    /// a separator, and the path.
    pub fn path_to_uri(&self, source_root: u32, path: &String) -> (r: Result<String, ConvError>)
        requires
            self.wf(),
        ensures
            match r {
                Ok(u) => self.spec_has_root(source_root) && u@ == self.spec_root_uri_of(
                    source_root) + "/"@ + path@,
                Err(e) => e == ConvError::UnknownRoot && !self.spec_has_root(source_root),
            },
    {
        let mut k: usize = 0;
        while k < self.roots.len()
            invariant
                k <= self.roots@.len(),
                self.wf(),
                forall|i: int| 0 <= i < k ==> (#[trigger] self.roots@[i]).root_id != source_root,
            decreases self.roots@.len() - k,
        {
            if self.roots[k].root_id == source_root {
                proof {
                    self.lemma_root_entry_unique(source_root, k as int);
                }
                let mut u = self.roots[k].base_uri.clone();
                u.append("/");
                u.append(path.as_str());
                return Ok(u);
            }
            k = k + 1;
        }
        Err(ConvError::UnknownRoot)
    }

    /// Resolve a document identifier to its file handle.
    pub fn text_document_to_file_id(&self, doc: &protocol::TextDocumentIdentifier) -> (r: Result<
        u32,
        ConvError,
    >)
        requires
            self.wf(),
        ensures
            match r {
                Ok(id) => exists|i: int|
                    0 <= i < self.files@.len() && (#[trigger] self.files@[i]).uri@ == doc.uri@
                        && self.files@[i].file_id == id,
                Err(e) => e == ConvError::UnknownUri && forall|i: int|
                    0 <= i < self.files@.len() ==> (#[trigger] self.files@[i]).uri@ != doc.uri@,
            },
    {
        self.uri_to_file_id(&doc.uri)
    }

    /// Resolve an opened document to its file handle.
    pub fn text_document_item_to_file_id(&self, item: &protocol::TextDocumentItem) -> (r: Result<
        u32,
        ConvError,
    >)
        requires
            self.wf(),
        ensures
            match r {
                Ok(id) => exists|i: int|
                    0 <= i < self.files@.len() && (#[trigger] self.files@[i]).uri@ == item.uri@
                        && self.files@[i].file_id == id,
                Err(e) => e == ConvError::UnknownUri && forall|i: int|
                    0 <= i < self.files@.len() ==> (#[trigger] self.files@[i]).uri@ != item.uri@,
            },
    {
        self.uri_to_file_id(&item.uri)
    }

    /// Resolve a versioned document identifier to its file handle.
    pub fn versioned_text_document_to_file_id(
        &self,
        doc: &protocol::VersionedTextDocumentIdentifier,
    ) -> (r: Result<u32, ConvError>)
        requires
            self.wf(),
        ensures
            match r {
                Ok(id) => exists|i: int|
                    0 <= i < self.files@.len() && (#[trigger] self.files@[i]).uri@ == doc.uri@
                        && self.files@[i].file_id == id,
                Err(e) => e == ConvError::UnknownUri && forall|i: int|
                    0 <= i < self.files@.len() ==> (#[trigger] self.files@[i]).uri@ != doc.uri@,
            },
    {
        self.uri_to_file_id(&doc.uri)
    }

    /// Resolve a document plus protocol position to an engine file
    /// position, rejecting positions outside the document.
    pub fn file_position(&self, params: &protocol::TextDocumentPositionParams) -> (r: Result<
        FilePosition,
        ConvError,
    >)
        requires
            self.wf(),
        ensures
            r is Ok <==> exists|i: int|
                0 <= i < self.files@.len() && (#[trigger] self.files@[i]).uri@
                    == params.text_document.uri@ && crate::line_index::position_in_bounds(
                    self.files@[i].index@,
                    params.position.line as int,
                    params.position.character as int,
                ),
            match r {
                Ok(fp) => {
                    &&& self.spec_has_file(fp.file_id)
                    &&& self.spec_uri_of(fp.file_id) == params.text_document.uri@
                    &&& crate::line_index::position_in_bounds(
                        self.spec_doc_of(fp.file_id),
                        params.position.line as int,
                        params.position.character as int,
                    )
                    &&& fp.offset as int == crate::line_index::offset_of(
                        self.spec_doc_of(fp.file_id),
                        params.position.line as int,
                        params.position.character as int,
                    )
                },
                Err(e) => e == ConvError::UnknownUri || e == ConvError::OffsetOutOfBounds,
            },
    {
        let file_id = match self.text_document_to_file_id(&params.text_document) {
            Ok(id) => id,
            Err(e) => {
                return Err(e);
            },
        };
        let ghost gi = choose|i: int|
            0 <= i < self.files@.len() && (#[trigger] self.files@[i]).uri@
                == params.text_document.uri@ && self.files@[i].file_id == file_id;
        proof {
            self.lemma_file_entry_unique(file_id, gi);
        }
        let index = match self.file_line_index(file_id) {
            Ok(ix) => ix,
            Err(e) => {
                return Err(e);
            },
        };
        let lc = crate::line_index::LineCol {
            line: params.position.line,
            col_utf16: params.position.character,
        };
        match index.checked_offset(lc) {
            Some(offset) => Ok(FilePosition { file_id, offset }),
            None => {
                proof {
                    assert forall|k: int|
                        0 <= k < self.files@.len() && (#[trigger] self.files@[k]).uri@
                            == params.text_document.uri@ implies
                        !crate::line_index::position_in_bounds(
                            self.files@[k].index@,
                            params.position.line as int,
                            params.position.character as int,
                        ) by {
                        if k < gi {
                            assert(self.files@[k].uri@ != self.files@[gi].uri@);
                        } else if gi < k {
                            assert(self.files@[gi].uri@ != self.files@[k].uri@);
                        }
                    }
                }
                Err(ConvError::OffsetOutOfBounds)
            },
        }
    }

    /// Resolve a document plus protocol range to an engine file range,
    /// rejecting a backwards range and positions outside the document.
    pub fn file_range(&self, doc: &protocol::TextDocumentIdentifier, range: protocol::PosRange)
        -> (r: Result<FileRange, ConvError>)
        requires
            self.wf(),
        ensures
            r is Ok <==> range.start.lex_le(range.end) && exists|i: int|
                0 <= i < self.files@.len() && (#[trigger] self.files@[i]).uri@ == doc.uri@
                    && crate::line_index::position_in_bounds(
                    self.files@[i].index@,
                    range.start.line as int,
                    range.start.character as int,
                ) && crate::line_index::position_in_bounds(
                    self.files@[i].index@,
                    range.end.line as int,
                    range.end.character as int,
                ),
            match r {
                Ok(fr) => {
                    &&& self.spec_has_file(fr.file_id)
                    &&& self.spec_uri_of(fr.file_id) == doc.uri@
                    &&& fr.range.start as int == crate::line_index::offset_of(
                        self.spec_doc_of(fr.file_id),
                        range.start.line as int,
                        range.start.character as int,
                    )
                    &&& fr.range.end as int == crate::line_index::offset_of(
                        self.spec_doc_of(fr.file_id),
                        range.end.line as int,
                        range.end.character as int,
                    )
                    &&& fr.range.wf()
                },
                Err(e) => {
                    &&& (e == ConvError::UnknownUri || e == ConvError::OffsetOutOfBounds || e
                        == ConvError::BackwardRange)
                    &&& (e == ConvError::BackwardRange <==> !range.start.lex_le(range.end))
                },
            },
    {
        if !range.start.le(&range.end) {
            return Err(ConvError::BackwardRange);
        }
        let file_id = match self.text_document_to_file_id(doc) {
            Ok(id) => id,
            Err(e) => {
                return Err(e);
            },
        };
        let ghost gi = choose|i: int|
            0 <= i < self.files@.len() && (#[trigger] self.files@[i]).uri@ == doc.uri@
                && self.files@[i].file_id == file_id;
        proof {
            self.lemma_file_entry_unique(file_id, gi);
            assert forall|k: int|
                0 <= k < self.files@.len() && (#[trigger] self.files@[k]).uri@ == doc.uri@
                implies k == gi by {
                if k < gi {
                    assert(self.files@[k].uri@ != self.files@[gi].uri@);
                } else if gi < k {
                    assert(self.files@[gi].uri@ != self.files@[k].uri@);
                }
            }
        }
        let index = match self.file_line_index(file_id) {
            Ok(ix) => ix,
            Err(e) => {
                return Err(e);
            },
        };
        let start = match index.checked_offset(crate::line_index::LineCol {
            line: range.start.line,
            col_utf16: range.start.character,
        }) {
            Some(o) => o,
            None => {
                return Err(ConvError::OffsetOutOfBounds);
            },
        };
        let end = match index.checked_offset(crate::line_index::LineCol {
            line: range.end.line,
            col_utf16: range.end.character,
        }) {
            Some(o) => o,
            None => {
                return Err(ConvError::OffsetOutOfBounds);
            },
        };
        proof {
            crate::line_index::lemma_offset_of_lex_mono(
                self.spec_doc_of(file_id),
                range.start.line as int,
                range.start.character as int,
                range.end.line as int,
                range.end.character as int,
            );
        }
        Ok(FileRange { file_id, range: TextRange { start, end } })
    }
}

} // verus!
