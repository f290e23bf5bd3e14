//! Hexadecimal text: what counts as a hex digit, how bytes are written in hex,
//! and the calls into the `hex` crate that do the work.

use vstd::prelude::*;
use vstd::string::StringSliceAdditionalSpecFns;

verus! {

/// Whether `c` is one of `0-9`, `a-f`, `A-F`.
pub open spec fn is_hex_char(c: char) -> bool {
    ('0' <= c && c <= '9') || ('a' <= c && c <= 'f') || ('A' <= c && c <= 'F')
}

/// Whether every character of `text` is a hex digit.
pub open spec fn is_hex_text(text: Seq<char>) -> bool {
    forall|i: int| 0 <= i < text.len() ==> is_hex_char(#[trigger] text[i])
}

/// The lower-case hex digit for a value below 16.
pub open spec fn spec_hex_digit(value: int) -> char {
    if value < 10 {
        ('0' as u8 + value) as u8 as char
    } else {
        ('a' as u8 + (value - 10)) as u8 as char
    }
}

/// The lower-case hex text of `bytes`: two digits per byte, high half first.
pub open spec fn spec_hex_encode(bytes: Seq<u8>) -> Seq<char> {
    Seq::new(
        2 * bytes.len(),
        |i: int|
            if i % 2 == 0 {
                spec_hex_digit(bytes[i / 2] as int / 16)
            } else {
                spec_hex_digit(bytes[i / 2] as int % 16)
            },
    )
}

/// A digest text of exactly `len` characters, all of them hex digits, that
/// decodes to whole bytes.
pub open spec fn spec_is_hex_digest(text: Seq<char>, len: nat) -> bool {
    text.len() == len && len % 2 == 0 && is_hex_text(text)
}

/// Calls `hex::encode`, which writes each byte as two lower-case hex digits,
/// the high half first, in the order of the input.
#[verifier::external_body]
pub(crate) fn hex_encode(bytes: &[u8]) -> (text: String)
    ensures
        text@ == spec_hex_encode(bytes@),
{
    hex::encode(bytes)
}

/// Calls `hex::decode` and tells whether it succeeded. The crate decodes the
/// bytes of the text in pairs and fails on an odd number of bytes or on a byte
/// that is no hex digit of either case; a character outside ASCII is made of
/// bytes that are no hex digits, so the text decodes exactly when it has an
/// even number of characters and all of them are hex digits.
#[verifier::external_body]
pub(crate) fn hex_decodes(text: &str) -> (ok: bool)
    ensures
        ok == (text@.len() % 2 == 0 && is_hex_text(text@)),
{
    hex::decode(text).is_ok()
}

/// Hex text is ASCII, so it has one byte per character.
pub proof fn lemma_hex_text_is_ascii(text: &str)
    requires
        is_hex_text(text@),
    ensures
        text.spec_bytes().len() == text@.len(),
{
    assert forall|i: int| 0 <= i < text@.len() implies (text@[i] as nat) < 128 by {
        assert(is_hex_char(text@[i]));
    }
    assert(vstd::utf8::is_ascii_chars(text@));
    vstd::string::is_ascii_spec_bytes(text);
}

/// Whether `text` is a digest of `len` hex characters.
pub fn is_hex_digest(text: &str, len: usize) -> (ok: bool)
    ensures
        ok == spec_is_hex_digest(text@, len as nat),
{
    let decodes = hex_decodes(text);
    proof {
        if is_hex_text(text@) {
            lemma_hex_text_is_ascii(text);
        }
    }
    text.as_bytes().len() == len && decodes
}

/// The hex text of bytes has two hex digits for each byte.
pub proof fn lemma_hex_encode_is_hex(bytes: Seq<u8>)
    ensures
        spec_hex_encode(bytes).len() == 2 * bytes.len(),
        is_hex_text(spec_hex_encode(bytes)),
{
    assert forall|i: int| 0 <= i < spec_hex_encode(bytes).len() implies is_hex_char(
        #[trigger] spec_hex_encode(bytes)[i],
    ) by {
        let b = bytes[i / 2] as int;
        assert(0 <= b / 16 < 16);
        assert(0 <= b % 16 < 16);
    }
}

} // verus!
