//! The Windows-1252 code page, as the `encoding` crate decodes it.

use encoding::all::WINDOWS_1252;
use encoding::{DecoderTrap, Encoding};
use vstd::prelude::*;

verus! {

/// The Unicode code point of the Windows-1252 byte `b`.
///
/// Bytes below `0x80` and from `0xA0` on stand for the code point of the same
/// number, as in ISO-8859-1. The 32 bytes in between follow the WHATWG index
/// of windows-1252, which gives every one of them a code point: the five that
/// the code page leaves unassigned keep their own number.
pub open spec fn windows_1252_code_point(b: u8) -> u32 {
    match b {
        0x80 => 8364,
        0x81 => 129,
        0x82 => 8218,
        0x83 => 402,
        0x84 => 8222,
        0x85 => 8230,
        0x86 => 8224,
        0x87 => 8225,
        0x88 => 710,
        0x89 => 8240,
        0x8A => 352,
        0x8B => 8249,
        0x8C => 338,
        0x8D => 141,
        0x8E => 381,
        0x8F => 143,
        0x90 => 144,
        0x91 => 8216,
        0x92 => 8217,
        0x93 => 8220,
        0x94 => 8221,
        0x95 => 8226,
        0x96 => 8211,
        0x97 => 8212,
        0x98 => 732,
        0x99 => 8482,
        0x9A => 353,
        0x9B => 8250,
        0x9C => 339,
        0x9D => 157,
        0x9E => 382,
        0x9F => 376,
        _ => b as u32,
    }
}

/// The character of the Windows-1252 byte `b`.
pub open spec fn windows_1252_char(b: u8) -> char {
    windows_1252_code_point(b) as char
}

/// The text that `bytes` spell in Windows-1252: one character for each byte.
pub open spec fn windows_1252_text(bytes: Seq<u8>) -> Seq<char> {
    Seq::new(bytes.len(), |i: int| windows_1252_char(bytes[i]))
}

/// Decodes `bytes` with `encoding::all::WINDOWS_1252.decode` under
/// `DecoderTrap::Replace`.
///
/// Trusted, not proved: the decoder writes one character for each byte, the
/// byte itself below `0x80` and from there on the entry of the forward table
/// of windows-1252 in `encoding-index-singlebyte`, which
/// [`windows_1252_code_point`] repeats. The table has no hole, so no byte is
/// ever replaced by U+FFFD, and under `Replace` the call returns no error.
#[verifier::external_body]
pub(crate) fn windows_1252_decode(bytes: &Vec<u8>) -> (text: String)
    ensures
        text@ == windows_1252_text(bytes@),
{
    WINDOWS_1252.decode(bytes.as_slice(), DecoderTrap::Replace).unwrap()
}

} // verus!
