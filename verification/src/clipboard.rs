//! Handing the editor's clipboard to the host terminal.
//!
//! The browser build cannot reach the system clipboard itself; it asks the
//! terminal to set it with an OSC 52 sequence that carries the clipboard
//! Base64-encoded. Small clipboards are sent without asking; for large ones
//! the user is asked first; for very large ones the user is told that the
//! clipboard is too large, and it is sent once they acknowledge that.

use vstd::prelude::*;

use crate::base64::{base64, encode};
use crate::text::push_char;

verus! {

/// Clipboards below this many bytes are sent without asking.
pub const LARGE_CLIPBOARD_THRESHOLD: usize = 131072;

/// Size of each scratch arena of the browser build, in bytes. A clipboard of
/// a quarter of this or more cannot be encoded in one frame.
pub const SCRATCH_ARENA_CAPACITY: usize = 4194304;

/// What the user has decided about sending the clipboard.
pub struct ClipboardState {
    /// The clipboard is to be sent with the next frame.
    pub osc_clipboard_sync: bool,
    /// The user chose to send every clipboard without asking.
    pub osc_clipboard_always_send: bool,
}

/// What a changed clipboard of a given size calls for.
#[derive(Clone, Copy, PartialEq, Eq, Structural)]
pub enum ClipboardPrompt {
    /// Send it: it is small, or the user said to always send.
    SendNow,
    /// Very large: tell the user, offering only "OK", which sends it.
    TooLarge,
    /// Ask "Always / Yes / No"; `yes_focused` tells which button has focus.
    Ask { yes_focused: bool },
}

/// What a changed clipboard of `data_len` bytes calls for.
pub open spec fn prompt_for(always_send: bool, data_len: nat) -> ClipboardPrompt {
    if always_send || data_len < LARGE_CLIPBOARD_THRESHOLD {
        ClipboardPrompt::SendNow
    } else if data_len >= SCRATCH_ARENA_CAPACITY / 4 {
        ClipboardPrompt::TooLarge
    } else {
        ClipboardPrompt::Ask { yes_focused: data_len < 10 * LARGE_CLIPBOARD_THRESHOLD }
    }
}

/// Decides what a changed clipboard of `data_len` bytes calls for. When it
/// is sent without asking, it is marked for sending; the caller then marks the
/// clipboard as handed over.
pub fn draw_handle_clipboard_change(st: &mut ClipboardState, data_len: usize) -> (p: ClipboardPrompt)
    ensures
        p == prompt_for(old(st).osc_clipboard_always_send, data_len as nat),
        final(st).osc_clipboard_always_send == old(st).osc_clipboard_always_send,
        final(st).osc_clipboard_sync == (p == ClipboardPrompt::SendNow
            || old(st).osc_clipboard_sync),
{
    if st.osc_clipboard_always_send || data_len < LARGE_CLIPBOARD_THRESHOLD {
        st.osc_clipboard_sync = true;
        return ClipboardPrompt::SendNow;
    }
    if data_len >= SCRATCH_ARENA_CAPACITY / 4 {
        ClipboardPrompt::TooLarge
    } else {
        ClipboardPrompt::Ask { yes_focused: data_len < 10 * LARGE_CLIPBOARD_THRESHOLD }
    }
}

/// What the user did with a clipboard prompt in one frame. A button that
/// the prompt does not show is never pressed.
#[derive(Clone, Copy, PartialEq, Eq, Structural)]
pub struct ClipboardClicks {
    /// "OK" on the too-large notice.
    pub acknowledged: bool,
    /// "Always": send this and every later clipboard.
    pub always: bool,
    pub yes: bool,
    pub no: bool,
    /// The prompt was closed without a choice.
    pub dismissed: bool,
}

/// The decision that `c` makes: `None` while undecided, otherwise whether to
/// send this clipboard. "No" and closing the prompt win over the other
/// buttons; "OK", "Always" and "Yes" send.
pub open spec fn clicks_decision(c: ClipboardClicks) -> Option<bool> {
    if c.dismissed || c.no {
        Some(false)
    } else if c.acknowledged || c.always || c.yes {
        Some(true)
    } else {
        None
    }
}

/// Applies what the user did with the prompt in this frame. Returns whether
/// the prompt is done, in which case the caller marks the clipboard as handed
/// over and redraws. "Always" turns on sending every later clipboard even
/// when the prompt is closed in the same frame.
pub fn clipboard_answer(st: &mut ClipboardState, clicks: ClipboardClicks) -> (done: bool)
    ensures
        done == (clicks_decision(clicks) is Some),
        done ==> final(st).osc_clipboard_sync == clicks_decision(clicks)->0,
        !done ==> final(st).osc_clipboard_sync == old(st).osc_clipboard_sync,
        final(st).osc_clipboard_always_send == (old(st).osc_clipboard_always_send || clicks.always),
{
    if clicks.always {
        st.osc_clipboard_always_send = true;
    }
    if clicks.dismissed || clicks.no {
        st.osc_clipboard_sync = false;
        true
    } else if clicks.acknowledged || clicks.always || clicks.yes {
        st.osc_clipboard_sync = true;
        true
    } else {
        false
    }
}

/// The OSC 52 sequence that sets the host clipboard to `data`:
/// `ESC ] 52 ; c ;`, the Base64 encoding of `data`, `ESC \`.
pub open spec fn osc52(data: Seq<u8>) -> Seq<char> {
    seq!['\u{1b}', ']', '5', '2', ';', 'c', ';'] + base64(data) + seq!['\u{1b}', '\\']
}

/// Appends the OSC 52 sequence for the clipboard `data` to `output`, unless
/// the clipboard is empty, and clears the request to send it.
pub fn write_osc_clipboard(output: &mut String, st: &mut ClipboardState, data: &[u8])
    ensures
        data@.len() > 0 ==> final(output)@ == old(output)@ + osc52(data@),
        data@.len() == 0 ==> final(output)@ == old(output)@,
        !final(st).osc_clipboard_sync,
        final(st).osc_clipboard_always_send == old(st).osc_clipboard_always_send,
{
    if data.len() > 0 {
        let ghost start = output@;
        push_char(output, '\u{1b}');
        push_char(output, ']');
        push_char(output, '5');
        push_char(output, '2');
        push_char(output, ';');
        push_char(output, 'c');
        push_char(output, ';');
        encode(output, data);
        push_char(output, '\u{1b}');
        push_char(output, '\\');
        assert(output@ =~= start + osc52(data@));
    }
    st.osc_clipboard_sync = false;
}

/// Small clipboards are always sent without asking, and the user is never
/// asked about a clipboard once they chose "Always".
pub proof fn law_small_or_trusted_clipboard_sent(always_send: bool, data_len: nat)
    requires
        always_send || data_len < LARGE_CLIPBOARD_THRESHOLD,
    ensures
        prompt_for(always_send, data_len) == ClipboardPrompt::SendNow,
{
}

/// A clipboard of a quarter of the scratch arena or more is never sent
/// before the user acknowledges the too-large notice.
pub proof fn law_huge_clipboard_not_sent_unasked(data_len: nat)
    requires
        data_len >= SCRATCH_ARENA_CAPACITY / 4,
    ensures
        prompt_for(false, data_len) == ClipboardPrompt::TooLarge,
{
}

} // verus!
