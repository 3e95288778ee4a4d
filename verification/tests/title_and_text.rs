use edit_wasm::text::push_decimal;
use edit_wasm::title::{sanitize_control_chars, write_terminal_title, TitleStatus};

#[test]
fn decimal_formatting() {
    let mut s = String::new();
    push_decimal(&mut s, 0);
    s.push(' ');
    push_decimal(&mut s, 7);
    s.push(' ');
    push_decimal(&mut s, 10);
    s.push(' ');
    push_decimal(&mut s, 65535);
    assert_eq!(s, "0 7 10 65535");
}

#[test]
fn sanitize_replaces_control_characters() {
    assert_eq!(sanitize_control_chars("a\tb\x1bc\u{7f}"), "a_b_c\u{7f}");
    assert_eq!(sanitize_control_chars("plain ü"), "plain ü");
    assert_eq!(sanitize_control_chars(""), "");
    assert_eq!(sanitize_control_chars("\0\n\x1f "), "___ ");
}

#[test]
fn sanitize_is_idempotent() {
    let once = sanitize_control_chars("x\ry\u{1}");
    assert_eq!(sanitize_control_chars(&once), once);
}

#[test]
fn title_for_clean_and_dirty_file() {
    let mut out = String::new();
    let mut status = TitleStatus::new();
    write_terminal_title(&mut out, &mut status, Some(("notes.txt", false)));
    assert_eq!(out, "\x1b]0;notes.txt - edit\x1b\\");
    out.clear();
    write_terminal_title(&mut out, &mut status, Some(("notes.txt", true)));
    assert_eq!(out, "\x1b]0;● notes.txt - edit\x1b\\");
    assert_eq!(status.filename, "notes.txt");
    assert!(status.dirty);
}

#[test]
fn title_sent_only_on_change() {
    let mut out = String::new();
    let mut status = TitleStatus::new();
    write_terminal_title(&mut out, &mut status, Some(("a", false)));
    let first = out.clone();
    write_terminal_title(&mut out, &mut status, Some(("a", false)));
    assert_eq!(out, first);
}

#[test]
fn title_without_document() {
    let mut out = String::new();
    let mut status = TitleStatus::new();
    write_terminal_title(&mut out, &mut status, None);
    assert_eq!(out, "");
    status.filename = "old".to_string();
    write_terminal_title(&mut out, &mut status, None);
    assert_eq!(out, "\x1b]0;edit\x1b\\");
    assert_eq!(status.filename, "");
}

#[test]
fn title_sanitizes_name() {
    let mut out = String::new();
    let mut status = TitleStatus::new();
    write_terminal_title(&mut out, &mut status, Some(("evil\x07name", false)));
    assert_eq!(out, "\x1b]0;evil_name - edit\x1b\\");
    assert_eq!(status.filename, "evil\x07name");
}
