//! The terminal side of an editor session in the browser: what starting the
//! session, resizing the terminal and each step of the editor hand to and
//! take from the in-memory terminal.
//!
//! The host page calls the editor once at start, once per batch of input and
//! once per resize. Each call ends by taking all VT output produced so far,
//! which the page writes to its terminal emulator.

use vstd::prelude::*;

use crate::documents::{doc_views, DocView, DocumentInfo};
use crate::terminal::{
    after_inject, after_push, after_read, after_set_size, after_take, after_write, inject_window_size_into_stdin,
    initial_state, pending_input, read_stdin, wasm_push_input, wasm_set_size, wasm_take_output, write_stdout,
    TermState, WasmIo,
};

verus! {

/// The VT sequence that prepares the terminal: alternate screen buffer,
/// cell-motion mouse tracking with SGR encoding, bracketed paste, and Meta
/// sending Escape.
pub open spec fn setup_sequence() -> Seq<char> {
    seq!['\u{1b}', '[', '?', '1', '0', '4', '9', 'h']
        + seq!['\u{1b}', '[', '?', '1', '0', '0', '2', ';', '1', '0', '0', '6', 'h']
        + seq!['\u{1b}', '[', '?', '2', '0', '0', '4', 'h']
        + seq!['\u{1b}', '[', '?', '1', '0', '3', '6', 'h']
}

/// The VT sequence that restores the terminal when the editor quits: default
/// cursor shape, cursor shown, empty title, mouse tracking and bracketed paste
/// off, main screen buffer.
pub open spec fn cleanup_sequence() -> Seq<char> {
    seq!['\u{1b}', '[', '0', ' ', 'q']
        + seq!['\u{1b}', '[', '?', '2', '5', 'h']
        + seq!['\u{1b}', ']', '0', ';', '\u{07}']
        + seq!['\u{1b}', '[', '?', '1', '0', '0', '2', ';', '1', '0', '0', '6', ';', '2', '0', '0', '4', 'l']
        + seq!['\u{1b}', '[', '?', '1', '0', '4', '9', 'l']
}

/// The terminal state after a session starts on a `cols` x `rows` terminal.
pub open spec fn after_start(s: TermState, cols: u32, rows: u32) -> TermState {
    after_inject(after_set_size(after_write(s, setup_sequence()), cols as u16, rows as u16))
}

/// The terminal state after a resize to `cols` x `rows`.
pub open spec fn after_resize(s: TermState, cols: u32, rows: u32) -> TermState {
    after_inject(after_set_size(s, cols as u16, rows as u16))
}

/// An editor session in the browser: the in-memory terminal, and whether
/// the editor has been set up.
pub struct Session {
    pub io: WasmIo,
    pub editor_ready: bool,
}

impl Session {
    /// A session whose editor is not set up yet, on a fresh terminal.
    pub fn new() -> (s: Session)
        ensures
            s.io@ == initial_state(),
            !s.editor_ready,
    {
        Session { io: WasmIo::new(), editor_ready: false }
    }
}

/// The untitled document that starting the editor opens, named `name`.
pub open spec fn untitled(name: Seq<char>) -> DocView {
    DocView { path: None, filename: name, has_file_id: false, dirty: false }
}

/// Starts a session on a terminal of `cols` columns and `rows` rows (each
/// kept modulo 2^16). The first start sets up the editor, which opens an
/// untitled document named `untitled_name` as the active document; a later
/// start leaves the editor and its documents alone. Every start records the
/// size, queues the terminal setup sequence for output, and requests a size
/// report with the next input.
pub fn start_session(
    s: &mut Session,
    docs: &mut Vec<DocumentInfo>,
    untitled_name: &str,
    cols: u32,
    rows: u32,
)
    ensures
        final(s).editor_ready,
        final(s).io@ == after_start(old(s).io@, cols, rows),
        !old(s).editor_ready ==> doc_views(final(docs)@) == seq![untitled(untitled_name@)]
            + doc_views(old(docs)@),
        old(s).editor_ready ==> doc_views(final(docs)@) == doc_views(old(docs)@),
{
    if !s.editor_ready {
        let doc = DocumentInfo {
            path: None,
            filename: untitled_name.to_owned(),
            has_file_id: false,
            dirty: false,
        };
        let ghost before = doc_views(docs@);
        docs.insert(0, doc);
        assert(doc_views(docs@) =~= seq![untitled(untitled_name@)] + before);
        s.editor_ready = true;
    }
    start_terminal(&mut s.io, cols, rows);
}

/// The terminal part of [`start_session`].
fn start_terminal(io: &mut WasmIo, cols: u32, rows: u32)
    ensures
        final(io)@ == after_start(old(io)@, cols, rows),
{
    let c = cols as u16;
    let r = rows as u16;
    wasm_set_size(io, c, r);
    proof {
        reveal_strlit("\x1b[?1049h\x1b[?1002;1006h\x1b[?2004h\x1b[?1036h");
    }
    write_stdout(io, "\x1b[?1049h\x1b[?1002;1006h\x1b[?2004h\x1b[?1036h");
    assert("\x1b[?1049h\x1b[?1002;1006h\x1b[?2004h\x1b[?1036h"@ =~= setup_sequence());
    wasm_set_size(io, c, r);
    inject_window_size_into_stdin(io);
}

/// Records a new terminal size of `cols` x `rows` (each kept modulo 2^16)
/// and requests a size report with the next input.
pub fn resize_session(io: &mut WasmIo, cols: u32, rows: u32)
    ensures
        final(io)@ == after_resize(old(io)@, cols, rows),
{
    wasm_set_size(io, cols as u16, rows as u16);
    inject_window_size_into_stdin(io);
}

/// Begins a step of the editor. Before the editor is set up a step does
/// nothing at all and returns `None`: the host then receives no output.
/// Otherwise the step queues the host's `input` and takes all queued input,
/// preceded by a pending size report, for the editor to parse. The read does
/// not wait, whatever `timeout` says.
pub fn begin_step(s: &mut Session, input: &str, timeout: core::time::Duration) -> (vt: Option<String>)
    ensures
        !old(s).editor_ready ==> vt is None && final(s).io@ == old(s).io@,
        old(s).editor_ready ==> (vt matches Some(v) && v@ == pending_input(after_push(old(s).io@, input@))),
        old(s).editor_ready ==> final(s).io@ == after_read(after_push(old(s).io@, input@)),
        final(s).editor_ready == old(s).editor_ready,
{
    if !s.editor_ready {
        return None;
    }
    wasm_push_input(&mut s.io, input);
    read_stdin(&mut s.io, timeout)
}

/// Ends a step of the editor and returns everything to write to the host
/// terminal: when the editor has quit (`exit`), the terminal cleanup
/// sequence, otherwise the rendered `frame`, after any output already queued.
pub fn end_step(io: &mut WasmIo, exit: bool, frame: &str) -> (out: String)
    ensures
        out@ == old(io)@.stdout + (if exit {
            cleanup_sequence()
        } else {
            frame@
        }),
        final(io)@ == after_take(old(io)@),
{
    if exit {
        proof {
            reveal_strlit("\x1b[0 q\x1b[?25h\x1b]0;\x07\x1b[?1002;1006;2004l\x1b[?1049l");
        }
        write_stdout(io, "\x1b[0 q\x1b[?25h\x1b]0;\x07\x1b[?1002;1006;2004l\x1b[?1049l");
        assert("\x1b[0 q\x1b[?25h\x1b]0;\x07\x1b[?1002;1006;2004l\x1b[?1049l"@ =~= cleanup_sequence());
    } else {
        write_stdout(io, frame);
    }
    wasm_take_output(io)
}

/// The first step of a session hands the editor the terminal size, before the
/// first input, and the host receives the setup sequence before any frame.
pub proof fn law_session_starts_with_size(s: TermState, cols: u32, rows: u32, input: Seq<char>)
    requires
        s.stdin.len() == 0,
        s.stdout.len() == 0,
        cols as u16 > 0,
        rows as u16 > 0,
    ensures
        pending_input(after_push(after_start(s, cols, rows), input))
            == crate::terminal::resize_sequence(cols as u16, rows as u16) + input,
        after_start(s, cols, rows).stdout == setup_sequence(),
{
    assert(Seq::<char>::empty() + input =~= input);
    assert(Seq::<char>::empty() + setup_sequence() =~= setup_sequence());
}

/// After a resize, the next step hands the editor the new size once, and the
/// step after that does not repeat it.
pub proof fn law_resize_reported_once(s: TermState, cols: u32, rows: u32, a: Seq<char>, b: Seq<char>)
    requires
        cols as u16 > 0,
        rows as u16 > 0,
    ensures
        pending_input(after_push(after_resize(s, cols, rows), a))
            == crate::terminal::resize_sequence(cols as u16, rows as u16) + (s.stdin + a),
        pending_input(after_push(after_read(after_push(after_resize(s, cols, rows), a)), b)) == b,
{
    assert(Seq::<char>::empty() + b =~= b);
}

} // verus!
