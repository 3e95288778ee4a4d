//! The decisions of the open / save-as dialog, which lists the files in
//! browser storage instead of a directory tree.
//!
//! A frame of the dialog goes through these steps, and the caller draws the
//! controls in between:
//! 1. [`picker_prepare`] pre-fills the name when "Save As" first appears;
//! 2. [`picker_load_entries`] fills the file list once per display;
//! 3. the user edits the name or picks an entry, and may activate it;
//! 4. [`picker_activate`] turns an activation into a file name, or into an
//!    overwrite warning when "Save As" would replace a stored file;
//! 5. [`overwrite_response`] applies the answer to that warning;
//! 6. [`finish_file_picker`] closes and resets the dialog when it is done.

use vstd::prelude::*;
use vstd::relations::sorted_by;

use crate::documents::{
    after_open, after_save_as, doc_views, wasm_open_file, wasm_save_file_as, DocView, DocumentInfo,
    SaveError,
};
use crate::order::{lex_order, string_views};
use crate::state::{error_log_add, logged, PickerMode, Requests};
use crate::vfs;

verus! {

/// The dialog's own state.
pub struct FilePicker {
    /// The name in the name field.
    pub pending_name: String,
    /// The stored files on display, loaded once per display.
    pub entries: Option<Vec<String>>,
    /// The name awaiting confirmation before it is overwritten.
    pub overwrite_warning: Option<String>,
    /// Completion suggestions for the name field.
    pub autocomplete: Vec<String>,
}

/// The view of an optional string.
pub open spec fn opt_view(s: Option<String>) -> Option<Seq<char>> {
    match s {
        Some(x) => Some(x@),
        None => None,
    }
}

/// The name that "Save As" proposes: the active document's name, or
/// `Untitled.txt` when no document is open.
pub open spec fn proposed_name(active_filename: Option<Seq<char>>) -> Seq<char> {
    match active_filename {
        Some(n) => n,
        None => seq!['U', 'n', 't', 'i', 't', 'l', 'e', 'd', '.', 't', 'x', 't'],
    }
}

/// A dialog on first display: everything empty.
pub open spec fn is_reset(p: FilePicker) -> bool {
    &&& p.pending_name@.len() == 0
    &&& p.entries is None
    &&& p.overwrite_warning is None
    &&& p.autocomplete@.len() == 0
}

impl FilePicker {
    /// A closed dialog with empty state.
    pub fn new() -> (p: FilePicker)
        ensures
            is_reset(p),
    {
        FilePicker {
            pending_name: String::new(),
            entries: None,
            overwrite_warning: None,
            autocomplete: Vec::new(),
        }
    }
}

/// On the first frame of "Save As", marks the dialog as shown and, when the
/// name field is empty, pre-fills it with the active document's name
/// (`active_filename`), or `Untitled.txt` when no document is open. Other
/// frames and the open dialog are left alone.
pub fn picker_prepare(r: &mut Requests, p: &mut FilePicker, active_filename: Option<&str>)
    ensures
        old(r).wants_file_picker == PickerMode::SaveAs ==> {
            &&& *final(r) == Requests { wants_file_picker: PickerMode::SaveAsShown, ..*old(r) }
            &&& final(p).pending_name@ == (if old(p).pending_name@.len() == 0 {
                proposed_name(
                    match active_filename {
                        Some(n) => Some(n@),
                        None => None,
                    },
                )
            } else {
                old(p).pending_name@
            })
        },
        old(r).wants_file_picker != PickerMode::SaveAs ==> *final(r) == *old(r)
            && final(p).pending_name@ == old(p).pending_name@,
        opt_view(final(p).overwrite_warning) == opt_view(old(p).overwrite_warning),
        final(p).entries == old(p).entries,
        final(p).autocomplete@ == old(p).autocomplete@,
{
    if r.wants_file_picker == PickerMode::SaveAs {
        r.wants_file_picker = PickerMode::SaveAsShown;
        if p.pending_name.as_str().is_empty() {
            p.pending_name = match active_filename {
                Some(n) => n.to_owned(),
                None => {
                    proof {
                        reveal_strlit("Untitled.txt");
                    }
                    "Untitled.txt".to_owned()
                },
            };
        }
    }
}

/// Loads the list of stored files when the dialog has none yet, so that the
/// list is read once per display. Whatever the storage holds, the loaded list
/// is sorted.
pub fn picker_load_entries(p: &mut FilePicker)
    ensures
        old(p).entries is Some ==> final(p).entries == old(p).entries,
        old(p).entries is None ==> (final(p).entries matches Some(v) && sorted_by(
            string_views(v@),
            lex_order(),
        )),
        final(p).pending_name@ == old(p).pending_name@,
        opt_view(final(p).overwrite_warning) == opt_view(old(p).overwrite_warning),
        final(p).autocomplete@ == old(p).autocomplete@,
{
    if p.entries.is_none() {
        p.entries = Some(vfs::list());
    }
}

/// What activating the name field does, given whether a file of that name is
/// stored (`stored`): nothing for an empty name; in "Save As", a first
/// activation on a stored name raises the overwrite warning instead; otherwise
/// the name is chosen.
pub open spec fn activation(
    pending: Seq<char>,
    warning: Option<Seq<char>>,
    is_open: bool,
    stored: bool,
) -> (Option<Seq<char>>, Option<Seq<char>>) {
    if pending.len() == 0 {
        (None, warning)
    } else if !is_open && stored && warning is None {
        (None, Some(pending))
    } else {
        (Some(pending), warning)
    }
}

/// Handles activation of the name field (Enter, or a double click on an
/// entry) in the open dialog (`is_open`) or the save-as dialog, where
/// `stored` tells whether a file of the pending name is stored. Returns the
/// chosen name, if any; the first activation of "Save As" on a stored name
/// raises the overwrite warning instead.
pub fn picker_activate(p: &mut FilePicker, is_open: bool, stored: bool) -> (chosen: Option<String>)
    ensures
        (opt_view(chosen), opt_view(final(p).overwrite_warning)) == activation(
            old(p).pending_name@,
            opt_view(old(p).overwrite_warning),
            is_open,
            stored,
        ),
        final(p).pending_name@ == old(p).pending_name@,
        final(p).entries == old(p).entries,
        final(p).autocomplete@ == old(p).autocomplete@,
{
    if p.pending_name.as_str().is_empty() {
        return None;
    }
    if !is_open && stored && p.overwrite_warning.is_none() {
        p.overwrite_warning = Some(p.pending_name.clone());
        None
    } else {
        Some(p.pending_name.clone())
    }
}

/// The name whose existence in browser storage decides an activation: the
/// pending name in "Save As" when it is not empty, and none otherwise (the
/// open dialog never warns, and an empty name chooses nothing).
pub fn existence_query(p: &FilePicker, is_open: bool) -> (q: Option<String>)
    ensures
        opt_view(q) == (if !is_open && p.pending_name@.len() > 0 {
            Some(p.pending_name@)
        } else {
            None
        }),
{
    if !is_open && !p.pending_name.as_str().is_empty() {
        Some(p.pending_name.clone())
    } else {
        None
    }
}

/// [`picker_activate`], asking browser storage ([`vfs::file_exists`]) about
/// the name that [`existence_query`] gives, when it gives one; without one,
/// the name counts as not stored, which does not change the outcome.
pub fn picker_activate_checked(p: &mut FilePicker, is_open: bool) -> (chosen: Option<String>)
    ensures
        exists|stored: bool|
            (opt_view(chosen), opt_view(final(p).overwrite_warning)) == #[trigger] activation(
                old(p).pending_name@,
                opt_view(old(p).overwrite_warning),
                is_open,
                stored,
            ),
        is_open || old(p).pending_name@.len() == 0 ==> (
        opt_view(chosen),
        opt_view(final(p).overwrite_warning),
        ) == activation(
            old(p).pending_name@,
            opt_view(old(p).overwrite_warning),
            is_open,
            false,
        ),
        final(p).pending_name@ == old(p).pending_name@,
        final(p).entries == old(p).entries,
        final(p).autocomplete@ == old(p).autocomplete@,
{
    let stored = match existence_query(p, is_open) {
        Some(name) => vfs::file_exists(name.as_str()),
        None => false,
    };
    picker_activate(p, is_open, stored)
}

/// What the answer to the overwrite warning does. `yes` confirms, `no`
/// declines, `dismissed` closes the warning; `activated` is the name already
/// chosen in this frame. Declining or dismissing clears the warning; a
/// confirmation that is not also declined or dismissed chooses the warned
/// name. Without a warning on display nothing changes.
pub open spec fn overwrite_answer(
    warning: Option<Seq<char>>,
    yes: bool,
    no: bool,
    dismissed: bool,
    activated: Option<Seq<char>>,
) -> (Option<Seq<char>>, Option<Seq<char>>) {
    match warning {
        None => (activated, None),
        Some(w) => if no || dismissed {
            (activated, None)
        } else if yes {
            (Some(w), None)
        } else {
            (activated, Some(w))
        },
    }
}

/// Applies the user's answer to the overwrite warning: returns the chosen
/// name and updates the warning, as [`overwrite_answer`] says.
pub fn overwrite_response(
    p: &mut FilePicker,
    yes: bool,
    no: bool,
    dismissed: bool,
    activated: Option<String>,
) -> (chosen: Option<String>)
    ensures
        (opt_view(chosen), opt_view(final(p).overwrite_warning)) == overwrite_answer(
            opt_view(old(p).overwrite_warning),
            yes,
            no,
            dismissed,
            opt_view(activated),
        ),
        final(p).pending_name@ == old(p).pending_name@,
        final(p).entries == old(p).entries,
        final(p).autocomplete@ == old(p).autocomplete@,
{
    if p.overwrite_warning.is_none() {
        return activated;
    }
    if no || dismissed {
        p.overwrite_warning = None;
    }
    if yes {
        match p.overwrite_warning.take() {
            Some(w) => {
                return Some(w);
            },
            None => {},
        }
    }
    activated
}

/// What carrying out the chosen name did.
pub enum PickerAction {
    /// The file was opened as the new active document; the text is to be
    /// loaded into it.
    Opened(String),
    /// The active document was saved under the name (or no document was
    /// open).
    Saved,
}

/// Carries out the dialog's choice of `name`: opens that file in the open
/// dialog (`is_open`), or saves the active document, whose text is
/// `content`, under that name. An error is logged by
/// [`finish_file_picker`], and the dialog then stays open.
pub fn picker_execute(docs: &mut Vec<DocumentInfo>, is_open: bool, name: &str, content: &str) -> (r:
    Result<PickerAction, SaveError>)
    ensures
        is_open ==> r matches Ok(PickerAction::Opened(_)),
        is_open ==> doc_views(final(docs)@) == after_open(doc_views(old(docs)@), name@),
        !is_open && old(docs)@.len() == 0 ==> r matches Ok(PickerAction::Saved),
        !is_open && old(docs)@.len() == 0 ==> doc_views(final(docs)@) == doc_views(old(docs)@),
        !is_open && old(docs)@.len() > 0 && r is Ok ==> (r matches Ok(PickerAction::Saved))
            && doc_views(final(docs)@) == after_save_as(doc_views(old(docs)@), name@),
        !is_open && old(docs)@.len() > 0 && r is Err ==> doc_views(final(docs)@) == doc_views(
            old(docs)@,
        ).update(0, DocView { dirty: true, ..old(docs)@[0]@ }),
{
    if is_open {
        Ok(PickerAction::Opened(wasm_open_file(docs, name)))
    } else {
        match wasm_save_file_as(docs, name, content) {
            Ok(()) => Ok(PickerAction::Saved),
            Err(e) => Err(e),
        }
    }
}

/// The error count after a frame whose open or save came to `action`: one
/// more error when it failed.
pub open spec fn count_after(count: usize, action: Option<bool>) -> usize {
    if action == Some(false) {
        logged(count)
    } else {
        count
    }
}

/// Ends a frame of the dialog. A failed open or save (`action` is
/// `Some(false)`) logs an error, and the dialog stays open unless it was also
/// closed. The dialog is done when it was closed (`closed`) or when the chosen
/// open or save succeeded (`action` is `Some(true)`); a done dialog is closed
/// and its state reset. Returns whether it is done.
pub fn finish_file_picker(r: &mut Requests, p: &mut FilePicker, closed: bool, action: Option<bool>) -> (done:
    bool)
    ensures
        done == (closed || action == Some(true)),
        done ==> is_reset(*final(p)),
        done ==> *final(r) == (Requests {
            wants_file_picker: PickerMode::Closed,
            error_log_count: count_after(old(r).error_log_count, action),
            ..*old(r)
        }),
        !done ==> *final(r) == (Requests {
            error_log_count: count_after(old(r).error_log_count, action),
            ..*old(r)
        }),
        !done ==> final(p).pending_name@ == old(p).pending_name@,
        !done ==> final(p).entries == old(p).entries,
        !done ==> opt_view(final(p).overwrite_warning) == opt_view(old(p).overwrite_warning),
        !done ==> final(p).autocomplete@ == old(p).autocomplete@,
{
    let done = closed || match action {
        Some(ok) => ok,
        None => false,
    };
    match action {
        Some(false) => error_log_add(r),
        _ => {},
    }
    if done {
        r.wants_file_picker = PickerMode::Closed;
        p.pending_name = String::new();
        p.entries = None;
        p.overwrite_warning = None;
        p.autocomplete = Vec::new();
    }
    done
}

/// "Save As" never overwrites a stored file unasked: the first activation on
/// a stored name chooses nothing and raises the warning, and a confirmation
/// then chooses exactly the warned name.
pub proof fn law_no_silent_overwrite(pending: Seq<char>)
    requires
        pending.len() > 0,
    ensures
        activation(pending, None, false, true) == (None::<Seq<char>>, Some(pending)),
        overwrite_answer(Some(pending), true, false, false, None) == (
            Some(pending),
            None::<Seq<char>>,
        ),
        overwrite_answer(Some(pending), true, true, false, None) == (
            None::<Seq<char>>,
            None::<Seq<char>>,
        ),
{
}

/// Opening never asks about overwriting, and an empty name is never chosen.
pub proof fn law_open_chooses_name(
    pending: Seq<char>,
    warning: Option<Seq<char>>,
    stored: bool,
    is_open: bool,
)
    ensures
        pending.len() > 0 ==> activation(pending, warning, true, stored) == (Some(pending), warning),
        pending.len() == 0 ==> activation(pending, warning, is_open, stored).0 is None,
{
}

} // verus!
