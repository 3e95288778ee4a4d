//! Base64 encoding (standard alphabet, `=` padding), used to hand the
//! clipboard to the host terminal in an OSC 52 sequence.

use vstd::prelude::*;

use crate::text::push_char;

verus! {

/// The character for the 6-bit value `i` (`i < 64`): `A`-`Z`, `a`-`z`,
/// `0`-`9`, `+`, `/`.
pub open spec fn b64_char(i: int) -> char {
    if i < 26 {
        ((65 + i) as u8) as char
    } else if i < 52 {
        ((97 + i - 26) as u8) as char
    } else if i < 62 {
        ((48 + i - 52) as u8) as char
    } else if i == 62 {
        '+'
    } else {
        '/'
    }
}

/// The 6-bit value of a character of the alphabet.
pub open spec fn b64_value(c: char) -> int {
    let x = c as u32 as int;
    if 65 <= x <= 90 {
        x - 65
    } else if 97 <= x <= 122 {
        x - 97 + 26
    } else if 48 <= x <= 57 {
        x - 48 + 52
    } else if c == '+' {
        62
    } else {
        63
    }
}

/// The Base64 encoding of `data`: each group of three bytes becomes four
/// characters; a final group of one or two bytes is padded with `=`.
pub open spec fn base64(data: Seq<u8>) -> Seq<char>
    decreases data.len(),
{
    if data.len() == 0 {
        seq![]
    } else if data.len() == 1 {
        let b0 = data[0] as int;
        seq![b64_char(b0 / 4), b64_char((b0 % 4) * 16), '=', '=']
    } else if data.len() == 2 {
        let b0 = data[0] as int;
        let b1 = data[1] as int;
        seq![b64_char(b0 / 4), b64_char((b0 % 4) * 16 + b1 / 16), b64_char((b1 % 16) * 4), '=']
    } else {
        let b0 = data[0] as int;
        let b1 = data[1] as int;
        let b2 = data[2] as int;
        seq![
            b64_char(b0 / 4),
            b64_char((b0 % 4) * 16 + b1 / 16),
            b64_char((b1 % 16) * 4 + b2 / 64),
            b64_char(b2 % 64),
        ] + base64(data.skip(3))
    }
}

/// The bytes that a Base64 text denotes, four characters at a time; `=` in
/// the third or fourth place marks a final group of one or two bytes.
pub open spec fn base64_decoded(s: Seq<char>) -> Seq<u8>
    decreases s.len(),
{
    if s.len() < 4 {
        seq![]
    } else {
        let a = b64_value(s[0]);
        let b = b64_value(s[1]);
        let c = b64_value(s[2]);
        let d = b64_value(s[3]);
        let group = if s[2] == '=' {
            seq![(a * 4 + b / 16) as u8]
        } else if s[3] == '=' {
            seq![(a * 4 + b / 16) as u8, ((b % 16) * 16 + c / 4) as u8]
        } else {
            seq![(a * 4 + b / 16) as u8, ((b % 16) * 16 + c / 4) as u8, ((c % 4) * 64 + d) as u8]
        };
        group + base64_decoded(s.skip(4))
    }
}

/// The character for the 6-bit value `i`.
fn encode_sextet(i: u8) -> (c: char)
    requires
        i < 64,
    ensures
        c == b64_char(i as int),
{
    if i < 26 {
        (65u8 + i) as char
    } else if i < 52 {
        (97u8 + (i - 26)) as char
    } else if i < 62 {
        (48u8 + (i - 52)) as char
    } else if i == 62 {
        '+'
    } else {
        '/'
    }
}

/// The number of characters in the Base64 encoding of `len` bytes.
pub open spec fn encoded_len(len: nat) -> nat {
    ((len + 2) / 3 * 4) as nat
}

/// Appends the Base64 encoding of `data` to `out`.
pub fn encode(out: &mut String, data: &[u8])
    ensures
        final(out)@ == old(out)@ + base64(data@),
{
    let n = data.len();
    let mut i: usize = 0;
    assert(data@.skip(0) =~= data@);
    while n - i >= 3
        invariant
            n == data@.len(),
            i <= n,
            old(out)@ + base64(data@) == out@ + base64(data@.skip(i as int)),
        decreases n - i,
    {
        let b0 = data[i];
        let b1 = data[i + 1];
        let b2 = data[i + 2];
        let ghost before = out@;
        push_char(out, encode_sextet(b0 / 4));
        push_char(out, encode_sextet((b0 % 4) * 16 + b1 / 16));
        push_char(out, encode_sextet((b1 % 16) * 4 + b2 / 64));
        push_char(out, encode_sextet(b2 % 64));
        proof {
            let rest = data@.skip(i as int);
            assert(rest.skip(3) =~= data@.skip(i + 3));
            assert(rest[0] == b0 && rest[1] == b1 && rest[2] == b2);
            assert(out@ =~= before + base64(rest).take(4));
            assert(base64(rest) =~= base64(rest).take(4) + base64(data@.skip(i + 3)));
        }
        i = i + 3;
    }
    let rest_len = n - i;
    let ghost rest = data@.skip(i as int);
    if rest_len == 1 {
        let b0 = data[i];
        push_char(out, encode_sextet(b0 / 4));
        push_char(out, encode_sextet((b0 % 4) * 16));
        push_char(out, '=');
        push_char(out, '=');
        assert(rest[0] == b0);
    } else if rest_len == 2 {
        let b0 = data[i];
        let b1 = data[i + 1];
        push_char(out, encode_sextet(b0 / 4));
        push_char(out, encode_sextet((b0 % 4) * 16 + b1 / 16));
        push_char(out, encode_sextet((b1 % 16) * 4));
        push_char(out, '=');
        assert(rest[0] == b0 && rest[1] == b1);
    } else {
        assert(rest.len() == 0);
    }
    assert(final(out)@ =~= old(out)@ + base64(data@));
}

proof fn lemma_char_value(i: int)
    requires
        0 <= i < 64,
    ensures
        b64_value(b64_char(i)) == i,
        b64_char(i) != '=',
{
}

/// The encoding has `4 * ceil(n / 3)` characters.
pub proof fn law_encoded_length(data: Seq<u8>)
    ensures
        base64(data).len() == encoded_len(data.len()),
    decreases data.len(),
{
    if data.len() >= 3 {
        law_encoded_length(data.skip(3));
    }
}

/// Decoding the encoding gives back the bytes: what is sent to the host is
/// exactly the clipboard.
pub proof fn law_decode_inverts_encode(data: Seq<u8>)
    ensures
        base64_decoded(base64(data)) == data,
    decreases data.len(),
{
    let e = base64(data);
    if data.len() == 0 {
    } else if data.len() == 1 {
        let b0 = data[0] as int;
        lemma_char_value(b0 / 4);
        lemma_char_value((b0 % 4) * 16);
        assert(e.skip(4) =~= Seq::<char>::empty());
        assert(base64_decoded(e.skip(4)) =~= Seq::<u8>::empty());
        assert(base64_decoded(e) =~= data);
    } else if data.len() == 2 {
        let b0 = data[0] as int;
        let b1 = data[1] as int;
        lemma_char_value(b0 / 4);
        lemma_char_value((b0 % 4) * 16 + b1 / 16);
        lemma_char_value((b1 % 16) * 4);
        assert(e.skip(4) =~= Seq::<char>::empty());
        assert(base64_decoded(e.skip(4)) =~= Seq::<u8>::empty());
        assert(base64_decoded(e) =~= data);
    } else {
        let b0 = data[0] as int;
        let b1 = data[1] as int;
        let b2 = data[2] as int;
        lemma_char_value(b0 / 4);
        lemma_char_value((b0 % 4) * 16 + b1 / 16);
        lemma_char_value((b1 % 16) * 4 + b2 / 64);
        lemma_char_value(b2 % 64);
        law_decode_inverts_encode(data.skip(3));
        assert(e.skip(4) =~= base64(data.skip(3)));
        assert(data =~= seq![data[0], data[1], data[2]] + data.skip(3));
        assert(base64_decoded(e) =~= data);
    }
}

} // verus!
