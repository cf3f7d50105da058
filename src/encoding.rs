//! Percent-encoding and Base64, both done by outside crates, and the clock.

use vstd::prelude::*;
use vstd::utf8::encode_utf8;

verus! {

/// Bytes that percent-encoding leaves as they are: ASCII letters, digits, `-`, `.`, `_`, `~`.
pub open spec fn is_unreserved(b: u8) -> bool {
    (0x30 <= b && b <= 0x39) || (0x41 <= b && b <= 0x5a) || (0x61 <= b && b <= 0x7a)
        || b == 0x2d || b == 0x2e || b == 0x5f || b == 0x7e
}

/// Upper-case hexadecimal digit for `d < 16`.
pub open spec fn hex_digit(d: u8) -> char {
    if d < 10 {
        ((0x30 + d) as u32) as char
    } else {
        ((0x41 + d - 10) as u32) as char
    }
}

/// One byte after percent-encoding: itself, or `%` and two upper-case hex digits.
pub open spec fn encoded_byte(b: u8) -> Seq<char> {
    if is_unreserved(b) {
        seq![(b as u32) as char]
    } else {
        seq!['%', hex_digit(b / 16), hex_digit(b % 16)]
    }
}

/// Percent-encoding of a byte string, byte by byte.
pub open spec fn percent_encoded(bytes: Seq<u8>) -> Seq<char>
    decreases bytes.len(),
{
    if bytes.len() == 0 {
        Seq::empty()
    } else {
        percent_encoded(bytes.drop_last()) + encoded_byte(bytes.last())
    }
}

/// Percent-encoding of the UTF-8 form of a text.
pub open spec fn url_encoded(s: Seq<char>) -> Seq<char> {
    percent_encoded(encode_utf8(s))
}

/// Standard Base64 (with padding) of a byte string, as the `base64` crate computes it.
pub uninterp spec fn base64_of(bytes: Seq<u8>) -> Seq<char>;

/// Relies on `urlencoding::encode`: every byte of the UTF-8 form but
/// `[A-Za-z0-9-._~]` becomes `%` followed by two upper-case hex digits.
#[verifier::external_body]
pub(crate) fn url_encode(s: &str) -> (r: String)
    ensures
        r@ == url_encoded(s@),
{
    urlencoding::encode(s).into_owned()
}

/// Relies on `base64::engine::general_purpose::STANDARD.encode` over the UTF-8 bytes of `s`.
#[verifier::external_body]
pub(crate) fn base64_encode(s: &str) -> (r: String)
    ensures
        r@ == base64_of(encode_utf8(s@)),
{
    base64::Engine::encode(&base64::engine::general_purpose::STANDARD, s.as_bytes())
}

/// Relies on `chrono::DateTime::<Utc>::from(SystemTime)` and `timestamp`:
/// the current time in whole seconds since the Unix epoch, negative for a
/// clock set before it. Nothing is known of the value.
#[verifier::external_body]
pub(crate) fn unix_now() -> (r: i64) {
    chrono::DateTime::<chrono::Utc>::from(std::time::SystemTime::now()).timestamp()
}

/// No percent-encoded text holds a character outside `[A-Za-z0-9-._~%]`;
/// in particular quotes, ampersands and spaces never survive encoding.
pub proof fn lemma_encoded_chars(bytes: Seq<u8>, i: int)
    requires
        0 <= i < percent_encoded(bytes).len(),
    ensures
        percent_encoded(bytes)[i] != '\'',
        percent_encoded(bytes)[i] != '&',
        percent_encoded(bytes)[i] != ' ',
        percent_encoded(bytes)[i] != '=',
        percent_encoded(bytes)[i] != '?',
    decreases bytes.len(),
{
    let prev = percent_encoded(bytes.drop_last());
    let b = bytes.last();
    if i < prev.len() {
        lemma_encoded_chars(bytes.drop_last(), i);
    } else {
        let c = encoded_byte(b)[i - prev.len()];
        if is_unreserved(b) {
            assert(c == (b as u32) as char);
        } else {
            assert(b / 16 < 16 && b % 16 < 16) by (nonlinear_arith);
        }
    }
}

/// A quote byte is written `%27` and an ampersand `%26`.
pub proof fn lemma_quote_and_ampersand()
    ensures
        encoded_byte(0x27) == seq!['%', '2', '7'],
        encoded_byte(0x26) == seq!['%', '2', '6'],
{
    assert(hex_digit(2) == '2');
    assert(hex_digit(7) == '7');
    assert(hex_digit(6) == '6');
}

} // verus!
