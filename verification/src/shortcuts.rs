//! The editor's global keyboard shortcuts.
//!
//! | Shortcut     | Effect                                   |
//! |--------------|------------------------------------------|
//! | Ctrl+N       | new untitled document                    |
//! | Ctrl+O       | open-file dialog                         |
//! | Ctrl+S       | save                                     |
//! | Ctrl+Shift+S | save-as dialog                           |
//! | Ctrl+W       | close the document                       |
//! | Ctrl+P       | go to file                               |
//! | Ctrl+Q       | quit                                     |
//! | Ctrl+G       | go to line                               |
//! | Ctrl+F       | search (when search is available)        |
//! | Ctrl+R       | replace (when search is available)       |
//! | F3           | find next                                |

use vstd::prelude::*;

use crate::state::{PickerMode, Requests, SearchKind};

verus! {

/// Key code of the letter N.
pub const KEY_N: u32 = 0x4E;
/// Key code of the letter O.
pub const KEY_O: u32 = 0x4F;
/// Key code of the letter S.
pub const KEY_S: u32 = 0x53;
/// Key code of the letter W.
pub const KEY_W: u32 = 0x57;
/// Key code of the letter P.
pub const KEY_P: u32 = 0x50;
/// Key code of the letter Q.
pub const KEY_Q: u32 = 0x51;
/// Key code of the letter G.
pub const KEY_G: u32 = 0x47;
/// Key code of the letter F.
pub const KEY_F: u32 = 0x46;
/// Key code of the letter R.
pub const KEY_R: u32 = 0x52;
/// Key code of the F3 function key.
pub const KEY_F3: u32 = 0x72;

/// A key together with the modifiers held down.
#[derive(Clone, Copy, PartialEq, Eq, Structural)]
pub struct KeyPress {
    pub code: u32,
    pub ctrl: bool,
    pub shift: bool,
    pub alt: bool,
}

/// What a key press asks of the front end.
#[derive(Clone, Copy, PartialEq, Eq, Structural)]
pub enum Shortcut {
    /// Not a global shortcut: the key goes on to the focused control.
    NotHandled,
    /// Handled by setting a request flag.
    Handled,
    /// Add a new untitled document.
    NewDocument,
    /// Find the next match of the current search.
    SearchNext,
}

/// The key with Ctrl and nothing else held.
pub open spec fn ctrl(code: u32) -> KeyPress {
    KeyPress { code, ctrl: true, shift: false, alt: false }
}

/// The key with Ctrl and Shift and nothing else held.
pub open spec fn ctrl_shift(code: u32) -> KeyPress {
    KeyPress { code, ctrl: true, shift: true, alt: false }
}

/// The key with no modifier held.
pub open spec fn plain(code: u32) -> KeyPress {
    KeyPress { code, ctrl: false, shift: false, alt: false }
}

/// What `key` does to the requests `r`, and what it asks of the front end.
pub open spec fn shortcut_effect(r: Requests, key: KeyPress) -> (Requests, Shortcut) {
    if key == ctrl(KEY_N) {
        (r, Shortcut::NewDocument)
    } else if key == ctrl(KEY_O) {
        (Requests { wants_file_picker: PickerMode::Open, ..r }, Shortcut::Handled)
    } else if key == ctrl(KEY_S) {
        (Requests { wants_save: true, ..r }, Shortcut::Handled)
    } else if key == ctrl_shift(KEY_S) {
        (Requests { wants_file_picker: PickerMode::SaveAs, ..r }, Shortcut::Handled)
    } else if key == ctrl(KEY_W) {
        (Requests { wants_close: true, ..r }, Shortcut::Handled)
    } else if key == ctrl(KEY_P) {
        (Requests { wants_go_to_file: true, ..r }, Shortcut::Handled)
    } else if key == ctrl(KEY_Q) {
        (Requests { wants_exit: true, ..r }, Shortcut::Handled)
    } else if key == ctrl(KEY_G) {
        (Requests { wants_goto: true, ..r }, Shortcut::Handled)
    } else if key == ctrl(KEY_F) && r.search_kind != SearchKind::Disabled {
        (Requests { search_kind: SearchKind::Search, search_focus: true, ..r }, Shortcut::Handled)
    } else if key == ctrl(KEY_R) && r.search_kind != SearchKind::Disabled {
        (Requests { search_kind: SearchKind::Replace, search_focus: true, ..r }, Shortcut::Handled)
    } else if key == plain(KEY_F3) {
        (r, Shortcut::SearchNext)
    } else {
        (r, Shortcut::NotHandled)
    }
}

fn is_key(key: KeyPress, code: u32, ctrl: bool, shift: bool) -> (b: bool)
    ensures
        b == (key == KeyPress { code, ctrl, shift, alt: false }),
{
    key.code == code && key.ctrl == ctrl && key.shift == shift && !key.alt
}

/// Applies the global shortcut `key` to `r`. Anything but
/// [`Shortcut::NotHandled`] means that the key was consumed and the frame
/// must be drawn again.
pub fn handle_shortcut(r: &mut Requests, key: KeyPress) -> (s: Shortcut)
    ensures
        (*final(r), s) == shortcut_effect(*old(r), key),
{
    if is_key(key, KEY_N, true, false) {
        Shortcut::NewDocument
    } else if is_key(key, KEY_O, true, false) {
        r.wants_file_picker = PickerMode::Open;
        Shortcut::Handled
    } else if is_key(key, KEY_S, true, false) {
        r.wants_save = true;
        Shortcut::Handled
    } else if is_key(key, KEY_S, true, true) {
        r.wants_file_picker = PickerMode::SaveAs;
        Shortcut::Handled
    } else if is_key(key, KEY_W, true, false) {
        r.wants_close = true;
        Shortcut::Handled
    } else if is_key(key, KEY_P, true, false) {
        r.wants_go_to_file = true;
        Shortcut::Handled
    } else if is_key(key, KEY_Q, true, false) {
        r.wants_exit = true;
        Shortcut::Handled
    } else if is_key(key, KEY_G, true, false) {
        r.wants_goto = true;
        Shortcut::Handled
    } else if is_key(key, KEY_F, true, false) && r.search_kind != SearchKind::Disabled {
        r.search_kind = SearchKind::Search;
        r.search_focus = true;
        Shortcut::Handled
    } else if is_key(key, KEY_R, true, false) && r.search_kind != SearchKind::Disabled {
        r.search_kind = SearchKind::Replace;
        r.search_focus = true;
        Shortcut::Handled
    } else if is_key(key, KEY_F3, false, false) {
        Shortcut::SearchNext
    } else {
        Shortcut::NotHandled
    }
}

/// A key that is not handled leaves every request as it was, and a key held
/// with Alt is never a shortcut.
pub proof fn law_unhandled_keys_change_nothing(r: Requests, key: KeyPress)
    ensures
        shortcut_effect(r, key).1 == Shortcut::NotHandled ==> shortcut_effect(r, key).0 == r,
        key.alt ==> shortcut_effect(r, key) == (r, Shortcut::NotHandled),
{
}

/// While search is unavailable, Ctrl+F and Ctrl+R are not shortcuts and do
/// not touch the search bar.
pub proof fn law_search_needs_search(r: Requests)
    requires
        r.search_kind == SearchKind::Disabled,
    ensures
        shortcut_effect(r, ctrl(KEY_F)) == (r, Shortcut::NotHandled),
        shortcut_effect(r, ctrl(KEY_R)) == (r, Shortcut::NotHandled),
{
}

/// The shortcut table, entry by entry: what each listed key does to any
/// requests `r`, and that Ctrl+F and Ctrl+R open the search bar whenever
/// search is available.
pub proof fn law_shortcut_table(r: Requests)
    ensures
        shortcut_effect(r, ctrl(KEY_N)) == (r, Shortcut::NewDocument),
        shortcut_effect(r, ctrl(KEY_O)) == (Requests { wants_file_picker: PickerMode::Open, ..r }, Shortcut::Handled),
        shortcut_effect(r, ctrl(KEY_S)) == (Requests { wants_save: true, ..r }, Shortcut::Handled),
        shortcut_effect(r, ctrl_shift(KEY_S)) == (Requests { wants_file_picker: PickerMode::SaveAs, ..r }, Shortcut::Handled),
        shortcut_effect(r, ctrl(KEY_W)) == (Requests { wants_close: true, ..r }, Shortcut::Handled),
        shortcut_effect(r, ctrl(KEY_P)) == (Requests { wants_go_to_file: true, ..r }, Shortcut::Handled),
        shortcut_effect(r, ctrl(KEY_Q)) == (Requests { wants_exit: true, ..r }, Shortcut::Handled),
        shortcut_effect(r, ctrl(KEY_G)) == (Requests { wants_goto: true, ..r }, Shortcut::Handled),
        r.search_kind != SearchKind::Disabled ==> shortcut_effect(r, ctrl(KEY_F)) == (
            Requests { search_kind: SearchKind::Search, search_focus: true, ..r },
            Shortcut::Handled,
        ),
        r.search_kind != SearchKind::Disabled ==> shortcut_effect(r, ctrl(KEY_R)) == (
            Requests { search_kind: SearchKind::Replace, search_focus: true, ..r },
            Shortcut::Handled,
        ),
        shortcut_effect(r, plain(KEY_F3)) == (r, Shortcut::SearchNext),
{
}

/// Only the keys of the table are shortcuts: any other key, or a table key
/// with other modifiers, is not handled and changes nothing.
pub proof fn law_only_table_keys(r: Requests, key: KeyPress)
    requires
        key != ctrl(KEY_N),
        key != ctrl(KEY_O),
        key != ctrl(KEY_S),
        key != ctrl_shift(KEY_S),
        key != ctrl(KEY_W),
        key != ctrl(KEY_P),
        key != ctrl(KEY_Q),
        key != ctrl(KEY_G),
        key != ctrl(KEY_F),
        key != ctrl(KEY_R),
        key != plain(KEY_F3),
    ensures
        shortcut_effect(r, key) == (r, Shortcut::NotHandled),
{
}

} // verus!
