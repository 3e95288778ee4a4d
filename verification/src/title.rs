//! The terminal window title: `<dirty marker><file name> - edit`, sent with
//! the OSC 0 sequence whenever the active file or its dirty state changes.

use vstd::prelude::*;

use crate::text::{chars_of, push_char, string_of};

verus! {

/// `c` with a control character (below U+0020) replaced by `'_'`.
pub open spec fn sanitized_char(c: char) -> char {
    if (c as u32) < 0x20 {
        '_'
    } else {
        c
    }
}

/// `s` with every control character replaced by `'_'`.
pub open spec fn sanitized(s: Seq<char>) -> Seq<char> {
    s.map_values(|c: char| sanitized_char(c))
}

/// Replaces every control character (U+0000 to U+001F) in `text` with `'_'`,
/// so that a file name cannot end or corrupt an escape sequence.
pub fn sanitize_control_chars(text: &str) -> (r: String)
    ensures
        r@ == sanitized(text@),
{
    let chars = chars_of(text);
    let mut out: Vec<char> = Vec::new();
    let mut i: usize = 0;
    while i < chars.len()
        invariant
            i <= chars@.len(),
            chars@ == text@,
            out@ == sanitized(chars@.take(i as int)),
        decreases chars@.len() - i,
    {
        let c = chars[i];
        if (c as u32) < 0x20 {
            out.push('_');
        } else {
            out.push(c);
        }
        assert(sanitized(chars@.take(i + 1)) =~= sanitized(chars@.take(i as int)).push(
            sanitized_char(c),
        ));
        i = i + 1;
    }
    assert(chars@.take(chars@.len() as int) =~= chars@);
    string_of(&out)
}

/// The file name and dirty flag last announced in the title.
pub struct TitleStatus {
    pub filename: String,
    pub dirty: bool,
}

impl TitleStatus {
    /// Nothing announced yet: an empty name, not dirty.
    pub fn new() -> (s: TitleStatus)
        ensures
            s.filename@ == Seq::<char>::empty(),
            !s.dirty,
    {
        TitleStatus { filename: String::new(), dirty: false }
    }
}

/// The name and dirty flag that the title shows: those of the active document,
/// or an empty name and clean when there is none.
pub open spec fn shown(active: Option<(Seq<char>, bool)>) -> (Seq<char>, bool) {
    match active {
        Some(a) => a,
        None => (seq![], false),
    }
}

/// The OSC 0 sequence that sets the title for `filename` and `dirty`:
/// `ESC ] 0 ;`, then for a non-empty name an optional `"● "`, the sanitized
/// name and `" - "`, then `edit ESC \`.
pub open spec fn title_sequence(filename: Seq<char>, dirty: bool) -> Seq<char> {
    let head = seq!['\u{1b}', ']', '0', ';'];
    let tail = seq!['e', 'd', 'i', 't', '\u{1b}', '\\'];
    if filename.len() == 0 {
        head + tail
    } else {
        let marker = if dirty {
            seq!['●', ' ']
        } else {
            Seq::<char>::empty()
        };
        head + marker + sanitized(filename) + seq![' ', '-', ' '] + tail
    }
}

fn push_str_chars(out: &mut String, s: &str)
    ensures
        final(out)@ == old(out)@ + s@,
{
    out.append(s);
}

/// What announcing the title does, from the last announced state `last` and
/// the active document `active`: the text to send and the new announced
/// state. Nothing is sent when the state has not changed.
pub open spec fn title_step(last: (Seq<char>, bool), active: Option<(Seq<char>, bool)>) -> (
    Seq<char>,
    (Seq<char>, bool),
) {
    let now = shown(active);
    if now == last {
        (seq![], last)
    } else {
        (title_sequence(now.0, now.1), now)
    }
}

/// The view of an optional borrowed name and dirty flag.
pub open spec fn active_view(active: Option<(&str, bool)>) -> Option<(Seq<char>, bool)> {
    match active {
        Some(a) => Some((a.0@, a.1)),
        None => None,
    }
}

/// Appends the title sequence to `output` when the active document's name or
/// dirty flag differs from what `status` last announced, and records the new
/// state in `status`. `active` is the active document's name and dirty flag,
/// or `None` when no document is open.
pub fn write_terminal_title(output: &mut String, status: &mut TitleStatus, active: Option<(&str, bool)>)
    ensures
        ({
            let (sent, now) = title_step((old(status).filename@, old(status).dirty), active_view(active));
            &&& final(output)@ == old(output)@ + sent
            &&& (final(status).filename@, final(status).dirty) == now
        }),
{
    let (filename, dirty): (&str, bool) = match active {
        Some(a) => a,
        None => ("", false),
    };
    proof {
        reveal_strlit("");
        assert(shown(active_view(active)) == (filename@, dirty));
    }
    let same_name = chars_equal(filename, status.filename.as_str());
    if same_name && dirty == status.dirty {
        assert(old(output)@ + Seq::<char>::empty() =~= old(output)@);
        return;
    }
    let ghost start = output@;
    push_char(output, '\u{1b}');
    push_char(output, ']');
    push_char(output, '0');
    push_char(output, ';');
    if !filename.is_empty() {
        if dirty {
            push_char(output, '●');
            push_char(output, ' ');
        }
        let clean = sanitize_control_chars(filename);
        push_str_chars(output, clean.as_str());
        push_char(output, ' ');
        push_char(output, '-');
        push_char(output, ' ');
    }
    push_char(output, 'e');
    push_char(output, 'd');
    push_char(output, 'i');
    push_char(output, 't');
    push_char(output, '\u{1b}');
    push_char(output, '\\');
    assert(output@ =~= start + title_sequence(filename@, dirty));
    status.filename = string_of(&chars_of(filename));
    status.dirty = dirty;
}

/// Whether `a` and `b` hold the same characters.
fn chars_equal(a: &str, b: &str) -> (r: bool)
    ensures
        r == (a@ == b@),
{
    let x = chars_of(a);
    let y = chars_of(b);
    if x.len() != y.len() {
        return false;
    }
    let mut i: usize = 0;
    while i < x.len()
        invariant
            x@ == a@,
            y@ == b@,
            x@.len() == y@.len(),
            i <= x@.len(),
            forall|j: int| 0 <= j < i ==> x@[j] == y@[j],
        decreases x@.len() - i,
    {
        if x[i] != y[i] {
            return false;
        }
        i = i + 1;
    }
    assert(x@ =~= y@);
    true
}

/// Sanitizing keeps the length, leaves no control character behind, and
/// changes nothing when applied a second time.
pub proof fn law_sanitize(s: Seq<char>)
    ensures
        sanitized(s).len() == s.len(),
        forall|i: int| 0 <= i < s.len() ==> (#[trigger] sanitized(s)[i]) as u32 >= 0x20,
        sanitized(sanitized(s)) == sanitized(s),
{
    assert(sanitized(sanitized(s)) =~= sanitized(s));
}

/// Once the title has been announced for a state, announcing it again for the
/// same active document sends nothing and keeps the state: the title is sent
/// only on change.
pub proof fn law_title_sent_once(last: (Seq<char>, bool), active: Option<(Seq<char>, bool)>)
    ensures
        ({
            let (_, first) = title_step(last, active);
            let (sent_again, second) = title_step(first, active);
            sent_again == Seq::<char>::empty() && second == first
        }),
{
}

/// A change of the active document's name or dirty flag is always announced,
/// with a sequence that starts with `ESC ] 0 ;`.
pub proof fn law_title_sent_on_change(last: (Seq<char>, bool), active: Option<(Seq<char>, bool)>)
    requires
        shown(active) != last,
    ensures
        ({
            let (sent, now) = title_step(last, active);
            &&& now == shown(active)
            &&& sent.len() >= 10
            &&& sent.take(4) == seq!['\u{1b}', ']', '0', ';']
        }),
{
    let now = shown(active);
    let sent = title_sequence(now.0, now.1);
    assert(sent.take(4) =~= seq!['\u{1b}', ']', '0', ';']);
}

} // verus!
