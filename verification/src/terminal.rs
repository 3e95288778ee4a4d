//! In-memory terminal for the browser build.
//!
//! There is no real stdin or stdout in a browser tab. The host page pushes
//! VT-encoded keyboard and mouse input into an input buffer, the editor
//! consumes it with [`read_stdin`], renders VT output with [`write_stdout`],
//! and the host page drains that output with [`wasm_take_output`].
//!
//! All of this state lives in one [`WasmIo`] value. Every operation is
//! described by a spec transition over its view [`TermState`], and the laws at
//! the end of the file relate sequences of operations.

use vstd::prelude::*;

use crate::text::{decimal, push_char, push_decimal};

verus! {

/// `std::io::Error`, carried through as an opaque value.
#[verifier::external_type_specification]
#[verifier::external_body]
pub struct ExIoError(std::io::Error);

/// The abstract state of the in-memory terminal.
pub struct TermState {
    /// VT input queued for the next [`read_stdin`].
    pub stdin: Seq<char>,
    /// VT output produced by the editor and not yet taken by the host page.
    pub stdout: Seq<char>,
    /// Terminal width in columns.
    pub cols: u16,
    /// Terminal height in rows.
    pub rows: u16,
    /// Whether the next [`read_stdin`] reports the terminal size.
    pub inject_resize: bool,
}

/// The buffers and settings of the in-memory terminal.
pub struct WasmIo {
    pub stdin_buf: String,
    pub stdout_buf: String,
    pub cols: u16,
    pub rows: u16,
    pub inject_resize: bool,
}

impl View for WasmIo {
    type V = TermState;

    open spec fn view(&self) -> TermState {
        TermState {
            stdin: self.stdin_buf@,
            stdout: self.stdout_buf@,
            cols: self.cols,
            rows: self.rows,
            inject_resize: self.inject_resize,
        }
    }
}

/// The state of a freshly created terminal: empty buffers, 80 x 24, no
/// pending size report.
pub open spec fn initial_state() -> TermState {
    TermState { stdin: seq![], stdout: seq![], cols: 80, rows: 24, inject_resize: false }
}

/// The VT sequence `ESC [ 8 ; rows ; cols t` that reports the terminal size.
pub open spec fn resize_sequence(cols: u16, rows: u16) -> Seq<char> {
    seq!['\u{1b}', '[', '8', ';'] + decimal(rows as nat) + seq![';'] + decimal(cols as nat) + seq![
        't',
    ]
}

/// What [`read_stdin`] hands to the editor in state `s`: the queued input,
/// preceded by the size report when one is pending and both dimensions are
/// non-zero.
pub open spec fn pending_input(s: TermState) -> Seq<char> {
    if s.inject_resize && s.cols > 0 && s.rows > 0 {
        resize_sequence(s.cols, s.rows) + s.stdin
    } else {
        s.stdin
    }
}

/// The state after [`read_stdin`]: input consumed, size report cleared.
pub open spec fn after_read(s: TermState) -> TermState {
    TermState { stdin: seq![], inject_resize: false, ..s }
}

/// The state after [`write_stdout`] of `text`.
pub open spec fn after_write(s: TermState, text: Seq<char>) -> TermState {
    TermState { stdout: s.stdout + text, ..s }
}

/// The state after [`wasm_push_input`] of `text`.
pub open spec fn after_push(s: TermState, text: Seq<char>) -> TermState {
    TermState { stdin: s.stdin + text, ..s }
}

/// The state after [`wasm_take_output`].
pub open spec fn after_take(s: TermState) -> TermState {
    TermState { stdout: seq![], ..s }
}

/// The state after [`wasm_set_size`].
pub open spec fn after_set_size(s: TermState, cols: u16, rows: u16) -> TermState {
    TermState { cols, rows, ..s }
}

/// The state after [`inject_window_size_into_stdin`].
pub open spec fn after_inject(s: TermState) -> TermState {
    TermState { inject_resize: true, ..s }
}

impl WasmIo {
    /// A terminal with empty buffers, 80 columns, 24 rows and no pending
    /// size report.
    pub fn new() -> (io: WasmIo)
        ensures
            io@ == initial_state(),
    {
        WasmIo {
            stdin_buf: String::new(),
            stdout_buf: String::new(),
            cols: 80,
            rows: 24,
            inject_resize: false,
        }
    }
}

/// Returned by [`init`]; the browser build has nothing to restore on exit.
pub struct Deinit;

/// Initialises the platform layer. Nothing needs setting up in a browser.
pub fn init() -> (d: Deinit)
    ensures
        d == Deinit,
{
    Deinit
}

/// Switching the terminal into raw mode is done by the host terminal
/// emulator; this always succeeds.
pub fn switch_modes() -> (r: std::io::Result<()>)
    ensures
        r is Ok,
{
    Ok(())
}

/// Requests that the next [`read_stdin`] report the terminal size.
pub fn inject_window_size_into_stdin(io: &mut WasmIo)
    ensures
        final(io)@ == after_inject(old(io)@),
{
    io.inject_resize = true;
}

/// Appends the size report `ESC [ 8 ; rows ; cols t` to `out`.
fn push_resize_sequence(out: &mut String, cols: u16, rows: u16)
    ensures
        final(out)@ == old(out)@ + resize_sequence(cols, rows),
{
    push_char(out, '\u{1b}');
    push_char(out, '[');
    push_char(out, '8');
    push_char(out, ';');
    push_decimal(out, rows);
    push_char(out, ';');
    push_decimal(out, cols);
    push_char(out, 't');
    assert(final(out)@ =~= old(out)@ + resize_sequence(cols, rows));
}

/// Takes all queued input. When a size report was requested and both
/// dimensions are non-zero, the report comes first. The read never blocks,
/// whatever `_timeout` says, and always returns `Some` (empty when nothing
/// is queued).
pub fn read_stdin(io: &mut WasmIo, _timeout: core::time::Duration) -> (r: Option<String>)
    ensures
        r is Some,
        r->0@ == pending_input(old(io)@),
        final(io)@ == after_read(old(io)@),
{
    let should_resize = io.inject_resize;
    io.inject_resize = false;

    let mut queued = String::new();
    std::mem::swap(&mut queued, &mut io.stdin_buf);

    if should_resize && io.cols > 0 && io.rows > 0 {
        let mut combined = String::new();
        push_resize_sequence(&mut combined, io.cols, io.rows);
        combined.append(queued.as_str());
        return Some(combined);
    }
    Some(queued)
}

/// Queues `text` as output for the host page.
pub fn write_stdout(io: &mut WasmIo, text: &str)
    ensures
        final(io)@ == after_write(old(io)@, text@),
{
    if text.is_empty() {
        assert(old(io)@.stdout + text@ =~= old(io)@.stdout);
        return;
    }
    io.stdout_buf.append(text);
}

/// Identifies an open file: in the browser build, a hash of its path.
#[derive(Clone, Copy, PartialEq, Eq, Structural)]
pub struct FileId(pub u64);

/// The user's preferred UI languages. A browser tab reports none, and the
/// editor falls back to English.
pub fn preferred_languages() -> (r: Vec<&'static str>)
    ensures
        r@.len() == 0,
{
    Vec::new()
}

/// Drive letters: the browser build has none.
pub fn drives() -> (r: Vec<char>)
    ensures
        r@.len() == 0,
{
    Vec::new()
}

/// Queues VT-encoded input for the next [`read_stdin`].
pub fn wasm_push_input(io: &mut WasmIo, s: &str)
    ensures
        final(io)@ == after_push(old(io)@, s@),
{
    io.stdin_buf.append(s);
}

/// Takes all output produced since the last call.
pub fn wasm_take_output(io: &mut WasmIo) -> (out: String)
    ensures
        out@ == old(io)@.stdout,
        final(io)@ == after_take(old(io)@),
{
    let mut out = String::new();
    std::mem::swap(&mut out, &mut io.stdout_buf);
    out
}

/// Records the terminal size used by the next size report.
pub fn wasm_set_size(io: &mut WasmIo, cols: u16, rows: u16)
    ensures
        final(io)@ == after_set_size(old(io)@, cols, rows),
{
    io.cols = cols;
    io.rows = rows;
}

/// Output written in several pieces after a take is handed over by the next
/// take as one string, in the order written, and leaves nothing behind.
pub proof fn law_output_taken_in_order(s: TermState, a: Seq<char>, b: Seq<char>)
    ensures
        after_write(after_write(after_take(s), a), b).stdout == a + b,
        after_take(after_write(after_write(s, a), b)).stdout == Seq::<char>::empty(),
{
    assert(Seq::<char>::empty() + a + b =~= a + b);
}

/// Input pushed in several pieces after a read is handed to the editor by the
/// next read as one string, in the order pushed, with no size report; a read
/// right after a read hands over nothing.
pub proof fn law_input_read_in_order(s: TermState, a: Seq<char>, b: Seq<char>)
    ensures
        pending_input(after_push(after_push(after_read(s), a), b)) == a + b,
        pending_input(after_read(s)) == Seq::<char>::empty(),
        after_read(after_read(s)) == after_read(s),
{
    assert(Seq::<char>::empty() + a + b =~= a + b);
}

/// A requested size report carries the size last set, comes before the
/// queued input, and is delivered exactly once.
pub proof fn law_size_reported_once(s: TermState, cols: u16, rows: u16, a: Seq<char>)
    requires
        cols > 0,
        rows > 0,
    ensures
        pending_input(after_inject(after_set_size(s, cols, rows))) == resize_sequence(cols, rows)
            + s.stdin,
        pending_input(after_push(after_read(after_inject(after_set_size(s, cols, rows))), a))
            == a,
{
    assert(Seq::<char>::empty() + a =~= a);
}

/// A size report for a terminal with zero columns or zero rows is dropped,
/// and the request is still cleared by the read.
pub proof fn law_empty_size_not_reported(s: TermState, cols: u16, rows: u16)
    requires
        cols == 0 || rows == 0,
    ensures
        pending_input(after_inject(after_set_size(s, cols, rows))) == s.stdin,
        !after_read(after_inject(after_set_size(s, cols, rows))).inject_resize,
{
}

/// Reading input leaves the output and the size alone, and writing or taking
/// output leaves the input and the size alone.
pub proof fn law_input_output_independent(s: TermState, text: Seq<char>)
    ensures
        after_read(s).stdout == s.stdout,
        after_push(s, text).stdout == s.stdout,
        after_write(s, text).stdin == s.stdin,
        after_take(s).stdin == s.stdin,
        after_write(s, text).inject_resize == s.inject_resize,
        after_take(s).inject_resize == s.inject_resize,
        (after_read(s).cols, after_read(s).rows) == (s.cols, s.rows),
{
}

/// An operation on the terminal other than a read: what the host page and
/// the editor may do between two calls of [`read_stdin`].
pub enum TermOp {
    /// [`wasm_push_input`] of a text.
    Push(Seq<char>),
    /// [`write_stdout`] of a text.
    Write(Seq<char>),
    /// [`wasm_take_output`].
    Take,
    /// [`wasm_set_size`] to columns and rows.
    SetSize(u16, u16),
    /// [`inject_window_size_into_stdin`].
    Inject,
}

/// The state after one operation.
pub open spec fn apply_op(s: TermState, op: TermOp) -> TermState {
    match op {
        TermOp::Push(t) => after_push(s, t),
        TermOp::Write(t) => after_write(s, t),
        TermOp::Take => after_take(s),
        TermOp::SetSize(c, r) => after_set_size(s, c, r),
        TermOp::Inject => after_inject(s),
    }
}

/// The state after the operations `ops`, in order.
pub open spec fn apply_ops(s: TermState, ops: Seq<TermOp>) -> TermState
    decreases ops.len(),
{
    if ops.len() == 0 {
        s
    } else {
        apply_op(apply_ops(s, ops.drop_last()), ops.last())
    }
}

/// The input pushed by `ops`, in order.
pub open spec fn pushed(ops: Seq<TermOp>) -> Seq<char>
    decreases ops.len(),
{
    if ops.len() == 0 {
        seq![]
    } else {
        pushed(ops.drop_last()) + match ops.last() {
            TermOp::Push(t) => t,
            _ => seq![],
        }
    }
}

/// Whether `ops` request a size report.
pub open spec fn requested(ops: Seq<TermOp>) -> bool
    decreases ops.len(),
{
    if ops.len() == 0 {
        false
    } else {
        requested(ops.drop_last()) || ops.last() is Inject
    }
}

/// The size set last by `ops`, or `size` when they set none.
pub open spec fn size_after(size: (u16, u16), ops: Seq<TermOp>) -> (u16, u16)
    decreases ops.len(),
{
    if ops.len() == 0 {
        size
    } else {
        match ops.last() {
            TermOp::SetSize(c, r) => (c, r),
            _ => size_after(size, ops.drop_last()),
        }
    }
}

/// Whether `ops` write no output.
pub open spec fn writes_nothing(ops: Seq<TermOp>) -> bool {
    forall|i: int| 0 <= i < ops.len() ==> !(#[trigger] ops[i] is Write)
}

proof fn lemma_apply_ops(s: TermState, ops: Seq<TermOp>)
    ensures
        apply_ops(s, ops).stdin == s.stdin + pushed(ops),
        apply_ops(s, ops).inject_resize == (s.inject_resize || requested(ops)),
        (apply_ops(s, ops).cols, apply_ops(s, ops).rows) == size_after((s.cols, s.rows), ops),
        writes_nothing(ops) && s.stdout.len() == 0 ==> apply_ops(s, ops).stdout.len() == 0,
    decreases ops.len(),
{
    if ops.len() == 0 {
        assert(s.stdin + Seq::<char>::empty() =~= s.stdin);
    } else {
        let init = ops.drop_last();
        lemma_apply_ops(s, init);
        if writes_nothing(ops) {
            assert forall|i: int| 0 <= i < init.len() implies !(#[trigger] init[i] is Write) by {
                assert(init[i] == ops[i]);
            }
            assert(!(ops[ops.len() - 1] is Write));
        }
        match ops.last() {
            TermOp::Push(t) => {
                assert(s.stdin + pushed(init) + t =~= s.stdin + (pushed(init) + t));
            },
            _ => {
                assert(pushed(init) + Seq::<char>::empty() =~= pushed(init));
            },
        }
    }
}

/// Between two reads, whatever else happens: the second read hands over all
/// input pushed since the first, in order, preceded by exactly one size
/// report when one was requested since and the size last set (or kept) is
/// non-zero; it hands over nothing when nothing was pushed or requested.
pub proof fn law_each_input_read_once(s: TermState, ops: Seq<TermOp>)
    ensures
        ({
            let (c, r) = size_after((s.cols, s.rows), ops);
            pending_input(apply_ops(after_read(s), ops)) == (if requested(ops) && c > 0 && r > 0 {
                resize_sequence(c, r)
            } else {
                Seq::<char>::empty()
            }) + pushed(ops)
        }),
        !requested(ops) && pushed(ops).len() == 0 ==> pending_input(apply_ops(after_read(s), ops))
            == Seq::<char>::empty(),
{
    lemma_apply_ops(after_read(s), ops);
    assert(Seq::<char>::empty() + pushed(ops) =~= pushed(ops));
}

/// After a take, whatever else happens, a take hands over nothing as long as
/// nothing was written; a take leaves the input, the size and the report
/// request as they were.
pub proof fn law_take_drains_output(s: TermState, ops: Seq<TermOp>)
    ensures
        writes_nothing(ops) ==> apply_ops(after_take(s), ops).stdout == Seq::<char>::empty(),
        after_take(s).stdin == s.stdin,
        (after_take(s).cols, after_take(s).rows) == (s.cols, s.rows),
        after_take(s).inject_resize == s.inject_resize,
{
    lemma_apply_ops(after_take(s), ops);
    if writes_nothing(ops) {
        assert(apply_ops(after_take(s), ops).stdout =~= Seq::<char>::empty());
    }
}

/// Requesting a size report again before the next read changes nothing.
pub proof fn law_repeated_request_changes_nothing(s: TermState, ops: Seq<TermOp>)
    requires
        requested(ops),
    ensures
        apply_op(apply_ops(s, ops), TermOp::Inject) == apply_ops(s, ops),
{
    lemma_apply_ops(s, ops);
}

} // verus!
