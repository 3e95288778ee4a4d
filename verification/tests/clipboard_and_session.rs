use edit_wasm::base64::encode;
use edit_wasm::clipboard::{
    clipboard_answer, draw_handle_clipboard_change, write_osc_clipboard, ClipboardClicks, ClipboardPrompt,
    ClipboardState, LARGE_CLIPBOARD_THRESHOLD,
};
use edit_wasm::documents::DocumentInfo;
use edit_wasm::session::{begin_step, end_step, resize_session, start_session, Session};
use edit_wasm::terminal::{wasm_take_output, write_stdout, WasmIo};
use std::time::Duration;

fn b64(data: &[u8]) -> String {
    let mut s = String::new();
    encode(&mut s, data);
    s
}

#[test]
fn base64_known_vectors() {
    assert_eq!(b64(b""), "");
    assert_eq!(b64(b"f"), "Zg==");
    assert_eq!(b64(b"fo"), "Zm8=");
    assert_eq!(b64(b"foo"), "Zm9v");
    assert_eq!(b64(b"foob"), "Zm9vYg==");
    assert_eq!(b64(b"fooba"), "Zm9vYmE=");
    assert_eq!(b64(b"foobar"), "Zm9vYmFy");
    assert_eq!(b64(&[0xfb, 0xff, 0x00]), "+/8A");
}

#[test]
fn base64_length_is_four_per_three_bytes() {
    for n in 0..20usize {
        let data = vec![0x5au8; n];
        assert_eq!(b64(&data).len(), (n + 2) / 3 * 4);
    }
}

fn state(always: bool) -> ClipboardState {
    ClipboardState { osc_clipboard_sync: false, osc_clipboard_always_send: always }
}

#[test]
fn small_clipboard_is_sent_without_asking() {
    let mut st = state(false);
    assert!(draw_handle_clipboard_change(&mut st, 10) == ClipboardPrompt::SendNow);
    assert!(st.osc_clipboard_sync);
    let mut st = state(true);
    assert!(draw_handle_clipboard_change(&mut st, 100_000_000) == ClipboardPrompt::SendNow);
    assert!(st.osc_clipboard_sync);
}

#[test]
fn large_clipboard_asks_and_huge_is_refused() {
    let mut st = state(false);
    assert!(draw_handle_clipboard_change(&mut st, LARGE_CLIPBOARD_THRESHOLD)
        == ClipboardPrompt::Ask { yes_focused: true });
    assert!(!st.osc_clipboard_sync);
    assert!(draw_handle_clipboard_change(&mut st, 1024 * 1024 - 1) == ClipboardPrompt::Ask { yes_focused: true });
    assert!(draw_handle_clipboard_change(&mut st, 1024 * 1024) == ClipboardPrompt::TooLarge);
    assert!(!st.osc_clipboard_sync);
}

fn clicks() -> ClipboardClicks {
    ClipboardClicks { acknowledged: false, always: false, yes: false, no: false, dismissed: false }
}

#[test]
fn answers_to_clipboard_prompt() {
    let mut st = state(false);
    assert!(!clipboard_answer(&mut st, clicks()));
    assert!(!st.osc_clipboard_sync);
    assert!(clipboard_answer(&mut st, ClipboardClicks { yes: true, ..clicks() }));
    assert!(st.osc_clipboard_sync);
    assert!(clipboard_answer(&mut st, ClipboardClicks { no: true, ..clicks() }));
    assert!(!st.osc_clipboard_sync);
    assert!(clipboard_answer(&mut st, ClipboardClicks { always: true, ..clicks() }));
    assert!(st.osc_clipboard_sync && st.osc_clipboard_always_send);
    assert!(clipboard_answer(&mut st, ClipboardClicks { dismissed: true, ..clicks() }));
    assert!(!st.osc_clipboard_sync && st.osc_clipboard_always_send);
    assert!(clipboard_answer(&mut st, ClipboardClicks { acknowledged: true, ..clicks() }));
    assert!(st.osc_clipboard_sync);
}

#[test]
fn always_then_closed_in_one_frame() {
    let mut st = state(false);
    st.osc_clipboard_sync = true;
    assert!(clipboard_answer(&mut st, ClipboardClicks { always: true, dismissed: true, ..clicks() }));
    assert!(st.osc_clipboard_always_send);
    assert!(!st.osc_clipboard_sync);
}

#[test]
fn osc52_sequence() {
    let mut out = String::from("x");
    let mut st = ClipboardState { osc_clipboard_sync: true, osc_clipboard_always_send: false };
    write_osc_clipboard(&mut out, &mut st, b"hi");
    assert_eq!(out, "x\x1b]52;c;aGk=\x1b\\");
    assert!(!st.osc_clipboard_sync);
    let mut out2 = String::new();
    st.osc_clipboard_sync = true;
    write_osc_clipboard(&mut out2, &mut st, b"");
    assert_eq!(out2, "");
    assert!(!st.osc_clipboard_sync);
}

#[test]
fn session_start_sets_up_terminal_and_reports_size() {
    let mut s = Session::new();
    let mut docs: Vec<DocumentInfo> = Vec::new();
    start_session(&mut s, &mut docs, "Untitled-1.txt", 100, 30);
    assert_eq!(docs.len(), 1);
    assert_eq!(docs[0].filename, "Untitled-1.txt");
    assert!(docs[0].path.is_none() && !docs[0].dirty);
    let vt = begin_step(&mut s, "k", Duration::ZERO);
    assert_eq!(vt.as_deref(), Some("\x1b[8;30;100tk"));
    let out = end_step(&mut s.io, false, "FRAME");
    assert_eq!(out, "\x1b[?1049h\x1b[?1002;1006h\x1b[?2004h\x1b[?1036hFRAME");
    assert_eq!(begin_step(&mut s, "", Duration::ZERO).as_deref(), Some(""));
}

#[test]
fn second_start_keeps_documents() {
    let mut s = Session::new();
    let mut docs: Vec<DocumentInfo> = Vec::new();
    start_session(&mut s, &mut docs, "Untitled-1.txt", 80, 24);
    start_session(&mut s, &mut docs, "Untitled-2.txt", 90, 20);
    assert_eq!(docs.len(), 1);
    assert_eq!(begin_step(&mut s, "", Duration::ZERO).as_deref(), Some("\x1b[8;20;90t"));
}

#[test]
fn steps_before_start_do_nothing() {
    let mut s = Session::new();
    assert_eq!(begin_step(&mut s, "ignored", Duration::ZERO), None);
    assert_eq!(wasm_take_output(&mut s.io), "");
    let mut docs: Vec<DocumentInfo> = Vec::new();
    start_session(&mut s, &mut docs, "U", 10, 5);
    assert_eq!(begin_step(&mut s, "", Duration::ZERO).as_deref(), Some("\x1b[8;5;10t"));
}

#[test]
fn session_size_is_kept_modulo_2_16() {
    let mut s = Session::new();
    let mut docs: Vec<DocumentInfo> = Vec::new();
    start_session(&mut s, &mut docs, "U", 1, 1);
    begin_step(&mut s, "", Duration::ZERO);
    resize_session(&mut s.io, 65536 + 7, 3);
    assert_eq!(begin_step(&mut s, "", Duration::ZERO).as_deref(), Some("\x1b[8;3;7t"));
    resize_session(&mut s.io, 65536, 3);
    assert_eq!(begin_step(&mut s, "", Duration::ZERO).as_deref(), Some(""));
}

#[test]
fn quitting_restores_terminal() {
    let mut io = WasmIo::new();
    write_stdout(&mut io, "pending");
    let out = end_step(&mut io, true, "ignored");
    assert_eq!(out, "pending\x1b[0 q\x1b[?25h\x1b]0;\x07\x1b[?1002;1006;2004l\x1b[?1049l");
    assert_eq!(wasm_take_output(&mut io), "");
}
