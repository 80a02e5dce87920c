//! Repair of text stored with C-style octal byte escapes.
//!
//! The league database holds legacy single-byte text in which some bytes were
//! written as `\NNN`, a backslash and three octal digits. [`decode_bytes`]
//! turns each such escape back into the one byte it stands for and then
//! decodes the whole as Windows-1252.

use crate::windows_1252::{windows_1252_code_point, windows_1252_decode, windows_1252_text};
use vstd::prelude::*;
use vstd::utf8::{encode_utf8, is_ascii_chars, is_ascii_chars_encode_utf8};

verus! {

/// The byte `\`.
pub const BACKSLASH: u8 = 0x5c;

/// The value of an ASCII octal digit, if `c` is one.
pub open spec fn octal_digit(c: u8) -> Option<u8> {
    if 0x30 <= c <= 0x37 {
        Some((c - 0x30) as u8)
    } else {
        None
    }
}

/// Whether an octal escape starts at `pos`: a backslash followed by three
/// octal digits, all four bytes inside `s`.
pub open spec fn escape_at(s: Seq<u8>, pos: int) -> bool {
    &&& 0 <= pos
    &&& pos + 3 < s.len()
    &&& s[pos] == BACKSLASH
    &&& octal_digit(s[pos + 1]) is Some
    &&& octal_digit(s[pos + 2]) is Some
    &&& octal_digit(s[pos + 3]) is Some
}

/// The byte that three octal digits stand for. Digits above `377` keep their
/// low eight bits.
pub open spec fn escape_byte(high: u8, mid: u8, low: u8) -> u8 {
    ((high * 64 + mid * 8 + low) % 256) as u8
}

/// The byte that the escape starting at `pos` stands for.
pub open spec fn escape_value(s: Seq<u8>, pos: int) -> u8
    recommends
        escape_at(s, pos),
{
    escape_byte(
        octal_digit(s[pos + 1]).unwrap(),
        octal_digit(s[pos + 2]).unwrap(),
        octal_digit(s[pos + 3]).unwrap(),
    )
}

/// The bytes of `s` from `pos` on, with every octal escape replaced by the
/// byte it stands for. Escapes are found left to right; a backslash that does
/// not start an escape stays as it is.
pub open spec fn resolved_from(s: Seq<u8>, pos: int) -> Seq<u8>
    decreases s.len() - pos,
{
    if pos < 0 || pos >= s.len() {
        Seq::empty()
    } else if escape_at(s, pos) {
        seq![escape_value(s, pos)] + resolved_from(s, pos + 4)
    } else {
        seq![s[pos]] + resolved_from(s, pos + 1)
    }
}

/// `s` with every octal escape replaced by the byte it stands for.
pub open spec fn resolved(s: Seq<u8>) -> Seq<u8> {
    resolved_from(s, 0)
}

/// Reads one ASCII octal digit (`'0'` to `'7'`).
pub fn parse_octal(c: u8) -> (digit: Option<u8>)
    ensures
        digit == octal_digit(c),
{
    if c < 0x30 || c > 0x37 {
        None
    } else {
        Some(c - 0x30)
    }
}

/// Whether the four bytes from `pos` on are a backslash and three octal digits.
pub fn valid_octal_sequence(bytes: &Vec<u8>, pos: usize) -> (valid: bool)
    ensures
        valid == escape_at(bytes@, pos as int),
{
    pos < bytes.len() && bytes.len() - pos > 3 && bytes[pos] == BACKSLASH && parse_octal(
        bytes[pos + 1],
    ).is_some() && parse_octal(bytes[pos + 2]).is_some() && parse_octal(bytes[pos + 3]).is_some()
}

/// Where the scan stands inside an escape.
enum DecodeState {
    /// Outside an escape.
    Char,
    /// The backslash of an escape was read.
    Backslash,
    /// The first digit was read; holds its value.
    First(u8),
    /// The second digit was read; holds the value of both.
    Second(u8),
}

/// Replaces every octal escape in `bytes` by the byte it stands for, in one
/// scan from left to right.
pub fn resolve_escapes(bytes: &Vec<u8>) -> (out: Vec<u8>)
    ensures
        out@ == resolved(bytes@),
{
    let mut out: Vec<u8> = Vec::new();
    let mut state = DecodeState::Char;
    let mut i: usize = 0;
    while i < bytes.len()
        invariant
            i <= bytes.len(),
            match state {
                DecodeState::Char => out@ + resolved_from(bytes@, i as int) == resolved(bytes@),
                DecodeState::Backslash => {
                    &&& escape_at(bytes@, i - 1)
                    &&& out@ + resolved_from(bytes@, i - 1) == resolved(bytes@)
                },
                DecodeState::First(n) => {
                    &&& escape_at(bytes@, i - 2)
                    &&& out@ + resolved_from(bytes@, i - 2) == resolved(bytes@)
                    &&& n == octal_digit(bytes@[i - 1]).unwrap()
                },
                DecodeState::Second(n) => {
                    &&& escape_at(bytes@, i - 3)
                    &&& out@ + resolved_from(bytes@, i - 3) == resolved(bytes@)
                    &&& n == octal_digit(bytes@[i - 2]).unwrap() * 8 + octal_digit(
                        bytes@[i - 1],
                    ).unwrap()
                },
            },
        decreases bytes.len() - i,
    {
        let c = bytes[i];
        match state {
            DecodeState::Char => {
                if valid_octal_sequence(bytes, i) {
                    state = DecodeState::Backslash;
                } else {
                    out.push(c);
                    assert(out@ + resolved_from(bytes@, i + 1) == resolved(bytes@)) by {
                        lemma_push_then_tail(out@.drop_last(), c, resolved_from(bytes@, i + 1));
                    }
                    state = DecodeState::Char;
                }
            },
            DecodeState::Backslash => {
                state = DecodeState::First(parse_octal(c).unwrap());
            },
            DecodeState::First(n) => {
                assert((n << 3) == n * 8) by (bit_vector)
                    requires
                        n <= 7,
                ;
                state = DecodeState::Second((n << 3) + parse_octal(c).unwrap());
            },
            DecodeState::Second(n) => {
                let d = parse_octal(c).unwrap();
                assert((n << 3) + d <= 255 && (n << 3) + d == (n * 8 + d) % 256) by (bit_vector)
                    requires
                        n <= 63,
                        d <= 7,
                ;
                let b = (n << 3) + d;
                assert(b == escape_value(bytes@, i - 3));
                out.push(b);
                assert(out@ + resolved_from(bytes@, i + 1) == resolved(bytes@)) by {
                    lemma_push_then_tail(out@.drop_last(), b, resolved_from(bytes@, i + 1));
                }
                state = DecodeState::Char;
            },
        }
        i += 1;
    }
    proof {
        // An escape never runs past the end, so the scan ends outside one.
        assert(resolved_from(bytes@, i as int) == Seq::<u8>::empty());
    }
    out
}

/// Appending one byte and then a tail is appending the tail with the byte at its head.
proof fn lemma_push_then_tail(front: Seq<u8>, b: u8, tail: Seq<u8>)
    ensures
        front.push(b) + tail == front + (seq![b] + tail),
{
}

/// The text that `s` stands for: its escapes resolved, the result read as
/// Windows-1252.
pub open spec fn decoded(s: Seq<u8>) -> Seq<char> {
    windows_1252_text(resolved(s))
}

/// Decodes the league's octal Latin-1 escapes and converts to a string.
/// Invalid escapes are left as they are; no input is refused.
pub fn decode_bytes(bytes: &Vec<u8>) -> (text: String)
    ensures
        text@ == decoded(bytes@),
{
    let plain = resolve_escapes(bytes);
    windows_1252_decode(&plain)
}

/// Whether no octal escape starts anywhere in `s`.
pub open spec fn escape_free(s: Seq<u8>) -> bool {
    forall|pos: int| !escape_at(s, pos)
}

/// Where no escape starts from `pos` on, resolving keeps the rest of `s`.
proof fn lemma_resolved_from_plain(s: Seq<u8>, pos: int)
    requires
        0 <= pos <= s.len(),
        forall|k: int| pos <= k ==> !escape_at(s, k),
    ensures
        resolved_from(s, pos) == s.subrange(pos, s.len() as int),
    decreases s.len() - pos,
{
    if pos < s.len() {
        lemma_resolved_from_plain(s, pos + 1);
        assert(seq![s[pos]] + s.subrange(pos + 1, s.len() as int) =~= s.subrange(
            pos,
            s.len() as int,
        ));
    }
}

/// Bytes that hold no backslash decode as plain Windows-1252: nothing is
/// taken for an escape, and each byte gives its own character. Outside the
/// range `0x80..0xA0`, where Windows-1252 parts from ISO-8859-1, that
/// character has the byte's own number.
pub proof fn lemma_decode_without_backslash(s: Seq<u8>)
    requires
        forall|i: int| 0 <= i < s.len() ==> s[i] != BACKSLASH,
    ensures
        resolved(s) == s,
        decoded(s) == windows_1252_text(s),
        decoded(s).len() == s.len(),
        forall|i: int|
            0 <= i < s.len() && !(0x80 <= s[i] < 0xA0) ==> (#[trigger] decoded(s)[i]) as u32
                == s[i],
{
    assert forall|pos: int| !escape_at(s, pos) by {}
    lemma_decode_idempotent(s);
}

/// Decoding is idempotent on bytes free of octal escapes: resolving leaves
/// them as they are, so resolving once more changes nothing, and the text is
/// their plain Windows-1252 reading.
pub proof fn lemma_decode_idempotent(s: Seq<u8>)
    requires
        escape_free(s),
    ensures
        resolved(s) == s,
        resolved(resolved(s)) == resolved(s),
        decoded(s) == windows_1252_text(s),
{
    lemma_resolved_from_plain(s, 0);
}

/// Decoding gives an ASCII text back: where `text` is ASCII and its bytes are
/// free of octal escapes, decoding those bytes yields `text` again.
pub proof fn lemma_decode_ascii_text(text: Seq<char>)
    requires
        is_ascii_chars(text),
        escape_free(encode_utf8(text)),
    ensures
        decoded(encode_utf8(text)) == text,
{
    let bytes = encode_utf8(text);
    is_ascii_chars_encode_utf8(text);
    lemma_decode_idempotent(bytes);
    assert forall|i: int| 0 <= i < text.len() implies windows_1252_text(bytes)[i] == text[i] by {
        let c = text[i];
        assert(bytes[i] == c as u8);
        assert(windows_1252_code_point(bytes[i]) == c as u32);
    }
    assert(windows_1252_text(bytes) =~= text);
}

} // verus!
