//! The open documents, as far as quitting, saving and opening decide on them.
//!
//! The documents are kept in a list whose first element is the active
//! document. Each [`DocumentInfo`] holds what those decisions read: the
//! path the document is saved under, its display name, whether it is tied to
//! a file identity, and whether it has unsaved changes. The text itself stays
//! with the caller, who hands it over when saving.

use vstd::prelude::*;

use crate::state::{error_log_add, logged, PickerMode, Requests};
use crate::vfs;

verus! {

/// What the front end knows of one open document.
pub struct DocumentInfo {
    /// The name the document is stored under, if it has been saved or opened.
    pub path: Option<String>,
    /// The name shown in tabs and in the title.
    pub filename: String,
    /// Whether the document is tied to a file identity.
    pub has_file_id: bool,
    /// Whether the document has unsaved changes.
    pub dirty: bool,
}

/// The abstract value of a [`DocumentInfo`].
pub struct DocView {
    pub path: Option<Seq<char>>,
    pub filename: Seq<char>,
    pub has_file_id: bool,
    pub dirty: bool,
}

impl View for DocumentInfo {
    type V = DocView;

    open spec fn view(&self) -> DocView {
        DocView {
            path: match self.path {
                Some(p) => Some(p@),
                None => None,
            },
            filename: self.filename@,
            has_file_id: self.has_file_id,
            dirty: self.dirty,
        }
    }
}

/// The views of a list of documents.
pub open spec fn doc_views(docs: Seq<DocumentInfo>) -> Seq<DocView> {
    docs.map_values(|d: DocumentInfo| d@)
}

/// How many documents at the front of `docs` have no unsaved changes.
pub open spec fn leading_clean(docs: Seq<DocView>) -> nat
    decreases docs.len(),
{
    if docs.len() == 0 || docs[0].dirty {
        0
    } else {
        1 + leading_clean(docs.drop_first())
    }
}

proof fn lemma_leading_clean(docs: Seq<DocView>)
    ensures
        leading_clean(docs) <= docs.len(),
        forall|i: int| 0 <= i < leading_clean(docs) ==> !(#[trigger] docs[i]).dirty,
        leading_clean(docs) < docs.len() ==> docs[leading_clean(docs) as int].dirty,
    decreases docs.len(),
{
    if docs.len() > 0 && !docs[0].dirty {
        lemma_leading_clean(docs.drop_first());
        assert forall|i: int| 0 <= i < leading_clean(docs) implies !(#[trigger] docs[i]).dirty by {
            if i > 0 {
                assert(docs[i] == docs.drop_first()[i - 1]);
            }
        }
    }
}

/// Handles a request to quit: closes documents from the front for as long
/// as they have no unsaved changes. When a document with unsaved changes
/// becomes active, asks to close it (which lets the user save or discard)
/// and stops; when every document is closed, ends the session.
pub fn draw_handle_wants_exit(docs: &mut Vec<DocumentInfo>, r: &mut Requests)
    ensures
        ({
            let k = leading_clean(doc_views(old(docs)@));
            &&& doc_views(final(docs)@) == doc_views(old(docs)@).skip(k as int)
            &&& if k < old(docs)@.len() {
                *final(r) == Requests { wants_close: true, ..*old(r) }
            } else {
                *final(r) == Requests { exit: true, ..*old(r) }
            }
        }),
{
    let ghost start = doc_views(docs@);
    proof {
        lemma_leading_clean(start);
        assert(start.skip(0) =~= start);
    }
    let ghost mut removed: nat = 0;
    while docs.len() > 0
        invariant
            start == doc_views(old(docs)@),
            removed <= leading_clean(start),
            leading_clean(start) <= start.len(),
            doc_views(docs@) == start.skip(removed as int),
            leading_clean(doc_views(docs@)) == leading_clean(start) - removed,
            *r == *old(r),
        decreases docs@.len(),
    {
        if docs[0].dirty {
            proof {
                assert(doc_views(docs@)[0].dirty);
                assert(leading_clean(doc_views(docs@)) == 0);
                assert(start.skip(removed as int).len() > 0);
            }
            r.wants_close = true;
            return;
        }
        let ghost before = doc_views(docs@);
        docs.remove(0);
        proof {
            assert(doc_views(docs@) =~= before.drop_first());
            assert(before.drop_first() =~= start.skip(removed + 1 as int));
            removed = removed + 1;
        }
    }
    proof {
        assert(doc_views(docs@).len() == 0);
        assert(leading_clean(doc_views(docs@)) == 0);
    }
    r.exit = true;
}

/// What saving the active document came to.
#[derive(Clone, Copy, PartialEq, Eq, Structural)]
pub enum SaveOutcome {
    /// No document is open; nothing to save.
    NoDocument,
    /// The document has no name yet; the save-as dialog is requested.
    NeedsName,
    /// The text was written to browser storage.
    Saved,
    /// Browser storage refused the text; the document stays unsaved.
    Failed,
}

/// Saves the active document, whose text is `content`, under its path
/// ([`save_target`]) and records the browser's answer with [`save_result`].
/// A document without a path gets the save-as dialog instead. Either way the
/// save request is cleared. Whether browser storage accepts the text is the
/// browser's decision: on success the document has no unsaved changes; on
/// failure it keeps them and an error ("Failed to save to browser storage",
/// whose text the caller keeps) is logged with [`error_log_add`].
pub fn wasm_draw_handle_save(docs: &mut Vec<DocumentInfo>, r: &mut Requests, content: &str) -> (o:
    SaveOutcome)
    ensures
        old(docs)@.len() == 0 ==> {
            &&& o == SaveOutcome::NoDocument
            &&& doc_views(final(docs)@) == doc_views(old(docs)@)
            &&& *final(r) == Requests { wants_save: false, ..*old(r) }
        },
        old(docs)@.len() > 0 && old(docs)@[0].path is None ==> {
            &&& o == SaveOutcome::NeedsName
            &&& doc_views(final(docs)@) == doc_views(old(docs)@)
            &&& *final(r) == Requests {
                wants_save: false,
                wants_file_picker: PickerMode::SaveAs,
                ..*old(r)
            }
        },
        old(docs)@.len() > 0 && old(docs)@[0].path is Some ==> {
            &&& o == SaveOutcome::Saved || o == SaveOutcome::Failed
            &&& doc_views(final(docs)@) == doc_views(old(docs)@).update(
                0,
                DocView { dirty: o == SaveOutcome::Failed, ..old(docs)@[0]@ },
            )
            &&& *final(r) == (Requests {
                wants_save: false,
                error_log_count: if o == SaveOutcome::Failed {
                    logged(old(r).error_log_count)
                } else {
                    old(r).error_log_count
                },
                ..*old(r)
            })
        },
{
    if docs.len() == 0 {
        r.wants_save = false;
        return SaveOutcome::NoDocument;
    }
    let path = match save_target(docs) {
        Some(p) => p,
        None => {
            r.wants_file_picker = PickerMode::SaveAs;
            r.wants_save = false;
            return SaveOutcome::NeedsName;
        },
    };
    let written = vfs::write(path.as_str(), content);
    let outcome = save_result(docs, written);
    r.wants_save = false;
    if outcome {
        SaveOutcome::Saved
    } else {
        error_log_add(r);
        SaveOutcome::Failed
    }
}

/// The view of an optional string.
pub open spec fn opt_string_view(s: Option<String>) -> Option<Seq<char>> {
    match s {
        Some(x) => Some(x@),
        None => None,
    }
}

/// The name under which saving writes the active document: its path, or
/// `None` when no document is open or the active one has no path yet.
pub fn save_target(docs: &Vec<DocumentInfo>) -> (p: Option<String>)
    ensures
        opt_string_view(p) == (if docs@.len() > 0 {
            opt_string_view(docs@[0].path)
        } else {
            None
        }),
{
    if docs.len() == 0 {
        return None;
    }
    match &docs[0].path {
        Some(p) => Some(p.clone()),
        None => None,
    }
}

/// Records the result of writing the active document: no unsaved changes
/// after a successful write (`written`), unsaved changes after a failed one.
pub fn save_result(docs: &mut Vec<DocumentInfo>, written: bool) -> (ok: bool)
    requires
        old(docs)@.len() > 0,
    ensures
        ok == written,
        doc_views(final(docs)@) == doc_views(old(docs)@).update(
            0,
            DocView { dirty: !written, ..old(docs)@[0]@ },
        ),
{
    let mut doc = docs.remove(0);
    doc.dirty = !written;
    docs.insert(0, doc);
    assert(doc_views(docs@) =~= doc_views(old(docs)@).update(
        0,
        DocView { dirty: !written, ..old(docs)@[0]@ },
    ));
    written
}

/// Whether `d` is an untouched new document: no path, no file identity, no
/// unsaved changes.
pub open spec fn is_pristine(d: DocView) -> bool {
    d.path is None && !d.has_file_id && !d.dirty
}

/// The document list after opening the file `filename`: a pristine active
/// document is replaced, any other is kept behind the new one.
pub open spec fn after_open(docs: Seq<DocView>, filename: Seq<char>) -> Seq<DocView> {
    let kept = if docs.len() > 0 && is_pristine(docs[0]) {
        docs.drop_first()
    } else {
        docs
    };
    seq![DocView { path: Some(filename), filename, has_file_id: false, dirty: false }] + kept
}

/// Opens the file `filename` from browser storage as the new active document,
/// replacing the active document when it is pristine. Returns the text to
/// load into the new document: [`text_to_load`] of what [`vfs::read`] gives
/// for `filename`.
pub fn wasm_open_file(docs: &mut Vec<DocumentInfo>, filename: &str) -> (content: String)
    ensures
        doc_views(final(docs)@) == after_open(doc_views(old(docs)@), filename@),
{
    open_document(docs, filename);
    text_to_load(vfs::read(filename))
}

/// The text of a newly opened document, given what is stored for it: the
/// stored text, or nothing when no such file is stored (or storage is
/// unavailable), as for a new file.
pub fn text_to_load(stored: Option<String>) -> (text: String)
    ensures
        text@ == (match stored {
            Some(s) => s@,
            None => Seq::<char>::empty(),
        }),
{
    match stored {
        Some(s) => s,
        None => String::new(),
    }
}

/// The document-list part of [`wasm_open_file`].
pub fn open_document(docs: &mut Vec<DocumentInfo>, filename: &str)
    ensures
        doc_views(final(docs)@) == after_open(doc_views(old(docs)@), filename@),
{
    let ghost start = doc_views(docs@);
    if docs.len() > 0 && docs[0].path.is_none() && !docs[0].has_file_id && !docs[0].dirty {
        docs.remove(0);
        assert(doc_views(docs@) =~= start.drop_first());
    }
    let doc = DocumentInfo {
        path: Some(filename.to_owned()),
        filename: filename.to_owned(),
        has_file_id: false,
        dirty: false,
    };
    docs.insert(0, doc);
    assert(doc_views(docs@) =~= after_open(start, filename@));
}

/// Why saving to browser storage failed.
#[derive(Clone, Copy, PartialEq, Eq, Structural)]
pub enum SaveError {
    /// Browser storage is unavailable, full, or refused the write.
    StorageRefused,
}

/// The document list after the active document was saved as `filename`.
pub open spec fn after_save_as(docs: Seq<DocView>, filename: Seq<char>) -> Seq<DocView> {
    docs.update(
        0,
        DocView { path: Some(filename), filename, has_file_id: false, dirty: false, ..docs[0] },
    )
}

/// Saves the active document, whose text is `content`, under the new name
/// `filename`. With no document open there is nothing to do. When browser
/// storage accepts the text, the document takes the new name and has no
/// unsaved changes; when it refuses, the document keeps its name and its
/// unsaved changes, and the error is returned.
pub fn wasm_save_file_as(docs: &mut Vec<DocumentInfo>, filename: &str, content: &str) -> (r: Result<
    (),
    SaveError,
>)
    ensures
        old(docs)@.len() == 0 ==> r is Ok && doc_views(final(docs)@) == doc_views(old(docs)@),
        old(docs)@.len() > 0 && r is Ok ==> doc_views(final(docs)@) == after_save_as(
            doc_views(old(docs)@),
            filename@,
        ),
        old(docs)@.len() > 0 && r is Err ==> r == Err::<(), SaveError>(SaveError::StorageRefused)
            && doc_views(final(docs)@) == doc_views(old(docs)@).update(
            0,
            DocView { dirty: true, ..old(docs)@[0]@ },
        ),
{
    if docs.len() == 0 {
        return Ok(());
    }
    let written = vfs::write(filename, content);
    rename_after_save(docs, filename, written)
}

/// What [`wasm_save_file_as`] makes of the storage's answer `written`.
pub fn rename_after_save(docs: &mut Vec<DocumentInfo>, filename: &str, written: bool) -> (r: Result<
    (),
    SaveError,
>)
    requires
        old(docs)@.len() > 0,
    ensures
        written ==> r is Ok && doc_views(final(docs)@) == after_save_as(
            doc_views(old(docs)@),
            filename@,
        ),
        !written ==> r == Err::<(), SaveError>(SaveError::StorageRefused) && doc_views(
            final(docs)@,
        ) == doc_views(old(docs)@).update(0, DocView { dirty: true, ..old(docs)@[0]@ }),
{
    let ghost start = doc_views(docs@);
    let mut doc = docs.remove(0);
    if written {
        doc.path = Some(filename.to_owned());
        doc.filename = filename.to_owned();
        doc.has_file_id = false;
        doc.dirty = false;
        docs.insert(0, doc);
        assert(doc_views(docs@) =~= after_save_as(start, filename@));
        Ok(())
    } else {
        doc.dirty = true;
        docs.insert(0, doc);
        assert(doc_views(docs@) =~= start.update(0, DocView { dirty: true, ..start[0] }));
        Err(SaveError::StorageRefused)
    }
}

/// Quitting never closes a document with unsaved changes: every document it
/// closes is clean, and the session ends only when no document is left.
pub proof fn law_quit_keeps_unsaved_work(docs: Seq<DocView>)
    ensures
        leading_clean(docs) <= docs.len(),
        forall|i: int| 0 <= i < leading_clean(docs) ==> !(#[trigger] docs[i]).dirty,
        leading_clean(docs) < docs.len() ==> docs.skip(leading_clean(docs) as int)[0].dirty,
        leading_clean(docs) == docs.len() ==> docs.skip(leading_clean(docs) as int).len() == 0,
{
    lemma_leading_clean(docs);
}

/// Opening a file makes it the active document under its own name, and keeps
/// every document that has a path, a file identity or unsaved changes.
pub proof fn law_open_keeps_work(docs: Seq<DocView>, filename: Seq<char>)
    ensures
        after_open(docs, filename)[0].path == Some(filename),
        after_open(docs, filename)[0].filename == filename,
        docs.len() > 0 && !is_pristine(docs[0]) ==> after_open(docs, filename).drop_first() == docs,
        docs.len() > 0 && is_pristine(docs[0]) ==> after_open(docs, filename).drop_first()
            == docs.drop_first(),
{
    assert(after_open(docs, filename).drop_first() =~= (if docs.len() > 0 && is_pristine(docs[0]) {
        docs.drop_first()
    } else {
        docs
    }));
}

} // verus!
