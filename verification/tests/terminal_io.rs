use edit_wasm::terminal::{
    drives, init, inject_window_size_into_stdin, preferred_languages, read_stdin, switch_modes,
    wasm_push_input, wasm_set_size, wasm_take_output, write_stdout, WasmIo,
};
use std::time::Duration;

#[test]
fn output_is_taken_in_order_and_drained() {
    let mut io = WasmIo::new();
    write_stdout(&mut io, "hello ");
    write_stdout(&mut io, "");
    write_stdout(&mut io, "world");
    assert_eq!(wasm_take_output(&mut io), "hello world");
    assert_eq!(wasm_take_output(&mut io), "");
}

#[test]
fn input_is_read_in_order_and_drained() {
    let mut io = WasmIo::new();
    wasm_push_input(&mut io, "\x1b[A");
    wasm_push_input(&mut io, "x");
    assert_eq!(read_stdin(&mut io, Duration::ZERO).as_deref(), Some("\x1b[Ax"));
    assert_eq!(read_stdin(&mut io, Duration::from_millis(5)).as_deref(), Some(""));
}

#[test]
fn size_report_comes_first_and_once() {
    let mut io = WasmIo::new();
    wasm_push_input(&mut io, "a");
    wasm_set_size(&mut io, 120, 40);
    inject_window_size_into_stdin(&mut io);
    assert_eq!(read_stdin(&mut io, Duration::ZERO).as_deref(), Some("\x1b[8;40;120ta"));
    wasm_push_input(&mut io, "b");
    assert_eq!(read_stdin(&mut io, Duration::ZERO).as_deref(), Some("b"));
}

#[test]
fn default_size_is_80_by_24() {
    let mut io = WasmIo::new();
    inject_window_size_into_stdin(&mut io);
    assert_eq!(read_stdin(&mut io, Duration::ZERO).as_deref(), Some("\x1b[8;24;80t"));
}

#[test]
fn zero_size_is_not_reported() {
    let mut io = WasmIo::new();
    wasm_set_size(&mut io, 0, 30);
    inject_window_size_into_stdin(&mut io);
    wasm_push_input(&mut io, "q");
    assert_eq!(read_stdin(&mut io, Duration::ZERO).as_deref(), Some("q"));
    wasm_set_size(&mut io, 10, 3);
    assert_eq!(read_stdin(&mut io, Duration::ZERO).as_deref(), Some(""));
}

#[test]
fn reading_input_does_not_touch_output() {
    let mut io = WasmIo::new();
    write_stdout(&mut io, "out");
    wasm_push_input(&mut io, "in");
    assert_eq!(read_stdin(&mut io, Duration::ZERO).as_deref(), Some("in"));
    assert_eq!(wasm_take_output(&mut io), "out");
}

#[test]
fn platform_stubs() {
    let _ = init();
    assert!(switch_modes().is_ok());
    assert!(preferred_languages().is_empty());
    assert!(drives().is_empty());
}

#[test]
fn input_between_reads_is_delivered_once_whatever_happens() {
    let mut io = WasmIo::new();
    read_stdin(&mut io, Duration::ZERO);
    wasm_push_input(&mut io, "a");
    inject_window_size_into_stdin(&mut io);
    write_stdout(&mut io, "o");
    wasm_set_size(&mut io, 7, 0);
    wasm_take_output(&mut io);
    inject_window_size_into_stdin(&mut io);
    wasm_push_input(&mut io, "b");
    wasm_set_size(&mut io, 7, 2);
    assert_eq!(read_stdin(&mut io, Duration::ZERO).as_deref(), Some("\x1b[8;2;7tab"));
    write_stdout(&mut io, "x");
    wasm_set_size(&mut io, 9, 9);
    assert_eq!(read_stdin(&mut io, Duration::ZERO).as_deref(), Some(""));
}

#[test]
fn take_after_take_without_writes_is_empty() {
    let mut io = WasmIo::new();
    write_stdout(&mut io, "z");
    wasm_take_output(&mut io);
    wasm_push_input(&mut io, "in");
    wasm_set_size(&mut io, 3, 3);
    assert_eq!(wasm_take_output(&mut io), "");
    assert_eq!(read_stdin(&mut io, Duration::ZERO).as_deref(), Some("in"));
}
