//! The editor's pending requests: the flags that the keyboard shortcuts,
//! menus and dialogs set, and that decide which dialogs are drawn.

use vstd::prelude::*;

verus! {

/// Which file dialog, if any, is requested.
#[derive(Clone, Copy, PartialEq, Eq, Structural)]
pub enum PickerMode {
    Closed,
    Open,
    /// "Save As" requested; the name field is pre-filled on first display.
    SaveAs,
    /// "Save As" on display.
    SaveAsShown,
}

/// The state of the search bar.
#[derive(Clone, Copy, PartialEq, Eq, Structural)]
pub enum SearchKind {
    /// Search is unavailable (no document supports it).
    Disabled,
    Hidden,
    Search,
    Replace,
}

/// The flags through which the front end asks for dialogs and actions.
#[derive(Clone, Copy, PartialEq, Eq, Structural)]
pub struct Requests {
    pub wants_file_picker: PickerMode,
    pub wants_save: bool,
    pub wants_close: bool,
    pub wants_exit: bool,
    pub wants_goto: bool,
    pub wants_go_to_file: bool,
    pub wants_language_picker: bool,
    pub wants_encoding_change: bool,
    pub wants_about: bool,
    pub search_kind: SearchKind,
    pub search_focus: bool,
    /// The editor is done and the session ends.
    pub exit: bool,
    /// Number of unacknowledged errors in the error log.
    pub error_log_count: usize,
}

impl Requests {
    /// Nothing requested, search hidden, no errors.
    pub fn new() -> (r: Requests)
        ensures
            r == (Requests {
                wants_file_picker: PickerMode::Closed,
                wants_save: false,
                wants_close: false,
                wants_exit: false,
                wants_goto: false,
                wants_go_to_file: false,
                wants_language_picker: false,
                wants_encoding_change: false,
                wants_about: false,
                search_kind: SearchKind::Hidden,
                search_focus: false,
                exit: false,
                error_log_count: 0,
            }),
    {
        Requests {
            wants_file_picker: PickerMode::Closed,
            wants_save: false,
            wants_close: false,
            wants_exit: false,
            wants_goto: false,
            wants_go_to_file: false,
            wants_language_picker: false,
            wants_encoding_change: false,
            wants_about: false,
            search_kind: SearchKind::Hidden,
            search_focus: false,
            exit: false,
            error_log_count: 0,
        }
    }
}

/// The number of unacknowledged errors after one more is logged. The count
/// stops at `usize::MAX`.
pub open spec fn logged(count: usize) -> usize {
    if count < usize::MAX {
        (count + 1) as usize
    } else {
        count
    }
}

/// Logs an error: the error log gains one unacknowledged entry, which makes
/// the next frame draw the error log. The caller keeps the message.
pub fn error_log_add(r: &mut Requests)
    ensures
        *final(r) == (Requests { error_log_count: logged(old(r).error_log_count), ..*old(r) }),
{
    if r.error_log_count < usize::MAX {
        r.error_log_count = r.error_log_count + 1;
    }
}

/// A dialog or handler that a frame draws on top of the menu bar, the editor
/// and the status bar.
#[derive(Clone, Copy, PartialEq, Eq, Structural)]
pub enum Dialog {
    /// Confirm closing a document with unsaved changes.
    CloseConfirm,
    /// Close documents on the way to quitting.
    ExitCheck,
    Goto,
    FilePicker,
    Save,
    LanguagePicker,
    EncodingChange,
    GoToFile,
    About,
    /// Ask before sending a large clipboard to the host.
    ClipboardChange,
    ErrorLog,
}

/// `s` with `d` appended when `cond` holds.
pub open spec fn with_if(s: Seq<Dialog>, cond: bool, d: Dialog) -> Seq<Dialog> {
    if cond {
        s.push(d)
    } else {
        s
    }
}

/// The dialogs that a frame draws for `r`, in drawing order.
pub open spec fn dialogs_for(r: Requests, clipboard_wants_sync: bool) -> Seq<Dialog> {
    let s = with_if(seq![], r.wants_close, Dialog::CloseConfirm);
    let s = with_if(s, r.wants_exit, Dialog::ExitCheck);
    let s = with_if(s, r.wants_goto, Dialog::Goto);
    let s = with_if(s, r.wants_file_picker != PickerMode::Closed, Dialog::FilePicker);
    let s = with_if(s, r.wants_save, Dialog::Save);
    let s = with_if(s, r.wants_language_picker, Dialog::LanguagePicker);
    let s = with_if(s, r.wants_encoding_change, Dialog::EncodingChange);
    let s = with_if(s, r.wants_go_to_file, Dialog::GoToFile);
    let s = with_if(s, r.wants_about, Dialog::About);
    let s = with_if(s, clipboard_wants_sync, Dialog::ClipboardChange);
    with_if(s, r.error_log_count != 0, Dialog::ErrorLog)
}

fn push_if(v: &mut Vec<Dialog>, cond: bool, d: Dialog)
    ensures
        final(v)@ == with_if(old(v)@, cond, d),
{
    if cond {
        v.push(d);
    }
}

/// The dialogs and handlers that a frame draws for `r`, in drawing order;
/// `clipboard_wants_sync` tells whether the clipboard has changed and not yet
/// been offered to the host.
pub fn pending_dialogs(r: &Requests, clipboard_wants_sync: bool) -> (d: Vec<Dialog>)
    ensures
        d@ == dialogs_for(*r, clipboard_wants_sync),
{
    let mut d: Vec<Dialog> = Vec::new();
    assert(d@ =~= Seq::<Dialog>::empty());
    push_if(&mut d, r.wants_close, Dialog::CloseConfirm);
    push_if(&mut d, r.wants_exit, Dialog::ExitCheck);
    push_if(&mut d, r.wants_goto, Dialog::Goto);
    push_if(&mut d, r.wants_file_picker != PickerMode::Closed, Dialog::FilePicker);
    push_if(&mut d, r.wants_save, Dialog::Save);
    push_if(&mut d, r.wants_language_picker, Dialog::LanguagePicker);
    push_if(&mut d, r.wants_encoding_change, Dialog::EncodingChange);
    push_if(&mut d, r.wants_go_to_file, Dialog::GoToFile);
    push_if(&mut d, r.wants_about, Dialog::About);
    push_if(&mut d, clipboard_wants_sync, Dialog::ClipboardChange);
    push_if(&mut d, r.error_log_count != 0, Dialog::ErrorLog);
    d
}

} // verus!
