use edit_wasm::shortcuts::{handle_shortcut, KeyPress, Shortcut, KEY_F, KEY_F3, KEY_N, KEY_O, KEY_Q, KEY_R, KEY_S};
use edit_wasm::state::{pending_dialogs, Dialog, PickerMode, Requests, SearchKind};

fn ctrl(code: u32) -> KeyPress {
    KeyPress { code, ctrl: true, shift: false, alt: false }
}

#[test]
fn ctrl_o_requests_open_dialog() {
    let mut r = Requests::new();
    assert!(handle_shortcut(&mut r, ctrl(KEY_O)) == Shortcut::Handled);
    assert!(r.wants_file_picker == PickerMode::Open);
}

#[test]
fn ctrl_s_and_ctrl_shift_s() {
    let mut r = Requests::new();
    assert!(handle_shortcut(&mut r, ctrl(KEY_S)) == Shortcut::Handled);
    assert!(r.wants_save);
    assert!(r.wants_file_picker == PickerMode::Closed);
    let key = KeyPress { code: KEY_S, ctrl: true, shift: true, alt: false };
    assert!(handle_shortcut(&mut r, key) == Shortcut::Handled);
    assert!(r.wants_file_picker == PickerMode::SaveAs);
}

#[test]
fn ctrl_n_and_f3_ask_the_front_end() {
    let mut r = Requests::new();
    let before = r;
    assert!(handle_shortcut(&mut r, ctrl(KEY_N)) == Shortcut::NewDocument);
    let f3 = KeyPress { code: KEY_F3, ctrl: false, shift: false, alt: false };
    assert!(handle_shortcut(&mut r, f3) == Shortcut::SearchNext);
    assert!(r == before);
}

#[test]
fn ctrl_q_requests_exit() {
    let mut r = Requests::new();
    handle_shortcut(&mut r, ctrl(KEY_Q));
    assert!(r.wants_exit);
}

#[test]
fn search_shortcuts_depend_on_search() {
    let mut r = Requests::new();
    assert!(handle_shortcut(&mut r, ctrl(KEY_F)) == Shortcut::Handled);
    assert!(r.search_kind == SearchKind::Search && r.search_focus);
    assert!(handle_shortcut(&mut r, ctrl(KEY_R)) == Shortcut::Handled);
    assert!(r.search_kind == SearchKind::Replace);
    let mut d = Requests::new();
    d.search_kind = SearchKind::Disabled;
    let before = d;
    assert!(handle_shortcut(&mut d, ctrl(KEY_F)) == Shortcut::NotHandled);
    assert!(d == before);
}

#[test]
fn alt_and_plain_letters_are_not_shortcuts() {
    let mut r = Requests::new();
    let before = r;
    let alt = KeyPress { code: KEY_Q, ctrl: true, shift: false, alt: true };
    assert!(handle_shortcut(&mut r, alt) == Shortcut::NotHandled);
    let plain = KeyPress { code: KEY_S, ctrl: false, shift: false, alt: false };
    assert!(handle_shortcut(&mut r, plain) == Shortcut::NotHandled);
    assert!(r == before);
}

#[test]
fn dialogs_in_drawing_order() {
    let mut r = Requests::new();
    assert!(pending_dialogs(&r, false).is_empty());
    r.wants_save = true;
    r.wants_close = true;
    r.wants_file_picker = PickerMode::SaveAsShown;
    r.error_log_count = 2;
    let d = pending_dialogs(&r, true);
    assert!(d == vec![
        Dialog::CloseConfirm,
        Dialog::FilePicker,
        Dialog::Save,
        Dialog::ClipboardChange,
        Dialog::ErrorLog
    ]);
}
