//! The encodings that snippet markers use: UUIDs in hyphenated hex, Base64
//! with the standard alphabet and padding, and UTF-8. The calls go to the
//! `uuid` and `base64` crates and to std.
use vstd::prelude::*;

use vstd::arithmetic::power2::pow2;
use base64::Engine;
use vstd::utf8::{decode_utf8, encode_utf8, valid_utf8};

verus! {

/// Lowercase hex digit for `d` in `0..16`.
pub open spec fn hex_digit(d: int) -> char {
    if d < 10 {
        ((48 + d) as u32) as char
    } else {
        ((87 + d) as u32) as char
    }
}

/// The `i`-th hex digit (most significant first) of a 128-bit value.
pub open spec fn uuid_nibble(id: u128, i: int) -> int {
    (id as int / pow2((4 * (31 - i)) as nat) as int) % 16
}

/// The 32 lowercase hex digits of `id`.
pub open spec fn uuid_hex(id: u128) -> Seq<char> {
    Seq::new(32, |i: int| hex_digit(uuid_nibble(id, i)))
}

/// The hyphenated form of a UUID: 8-4-4-4-12 lowercase hex digits.
pub open spec fn uuid_hyphenated(id: u128) -> Seq<char> {
    let h = uuid_hex(id);
    h.subrange(0, 8) + seq!['-'] + h.subrange(8, 12) + seq!['-'] + h.subrange(12, 16) + seq!['-']
        + h.subrange(16, 20) + seq!['-'] + h.subrange(20, 32)
}

/// What `uuid::Uuid::parse_str` yields for the text `s`, as the UUID's
/// 128-bit value.
pub uninterp spec fn uuid_parse(s: Seq<char>) -> Option<u128>;

/// Formats a UUID with `uuid::Uuid`'s `Display`, which writes the
/// hyphenated lowercase form. The contract states that form, and that
/// `Uuid::parse_str` reads it back, which the crate documents for every
/// format it generates.
#[verifier::external_body]
pub(crate) fn format_uuid(id: u128) -> (r: String)
    ensures
        r@ == uuid_hyphenated(id),
        uuid_parse(r@) == Some(id),
{
    uuid::Uuid::from_u128(id).to_string()
}

/// Parses a UUID with `uuid::Uuid::parse_str`. The contract names the
/// result: the formats the parser accepts are not written out here.
#[verifier::external_body]
pub(crate) fn parse_uuid(s: &str) -> (r: Option<u128>)
    ensures
        r == uuid_parse(s@),
{
    match uuid::Uuid::parse_str(s) {
        Ok(id) => Some(id.as_u128()),
        Err(_) => None,
    }
}

/// The symbol for a 6-bit value in the standard Base64 alphabet.
pub open spec fn b64_symbol(v: int) -> char {
    if v < 26 {
        ((65 + v) as u32) as char
    } else if v < 52 {
        ((71 + v) as u32) as char
    } else if v < 62 {
        ((v - 4) as u32) as char
    } else if v == 62 {
        '+'
    } else {
        '/'
    }
}

/// Standard Base64 with padding: each group of three bytes becomes four
/// symbols; a final group of one or two bytes is padded with `=`.
pub open spec fn base64_encode(b: Seq<u8>) -> Seq<char>
    decreases b.len(),
{
    if b.len() == 0 {
        Seq::empty()
    } else if b.len() == 1 {
        seq![b64_symbol(b[0] as int / 4), b64_symbol((b[0] as int % 4) * 16), '=', '=']
    } else if b.len() == 2 {
        seq![
            b64_symbol(b[0] as int / 4),
            b64_symbol((b[0] as int % 4) * 16 + b[1] as int / 16),
            b64_symbol((b[1] as int % 16) * 4),
            '=',
        ]
    } else {
        seq![
            b64_symbol(b[0] as int / 4),
            b64_symbol((b[0] as int % 4) * 16 + b[1] as int / 16),
            b64_symbol((b[1] as int % 16) * 4 + b[2] as int / 64),
            b64_symbol(b[2] as int % 64),
        ] + base64_encode(b.skip(3))
    }
}

/// What `base64`'s standard engine decodes the text `s` to, if it accepts
/// it.
pub uninterp spec fn base64_decode(s: Seq<char>) -> Option<Seq<u8>>;

/// Encodes bytes with `base64`'s standard engine (standard alphabet, with
/// padding). The contract states the encoding, and that decoding it gives
/// the bytes back, which the crate documents as the round trip of the
/// engine. The engine panics when the encoded length overflows `usize`,
/// which the length bound rules out.
#[verifier::external_body]
pub(crate) fn encode_base64(b: &[u8]) -> (r: String)
    requires
        b@.len() <= isize::MAX,
    ensures
        r@ == base64_encode(b@),
        base64_decode(r@) == Some(b@),
{
    base64::engine::general_purpose::STANDARD.encode(b)
}

/// Decodes text with `base64`'s standard engine. The contract names the
/// result: which texts the engine accepts is not written out here.
#[verifier::external_body]
pub(crate) fn decode_base64(s: &str) -> (r: Option<Vec<u8>>)
    ensures
        match r {
            Some(v) => base64_decode(s@) == Some(v@),
            None => base64_decode(s@) is None,
        },
{
    match base64::engine::general_purpose::STANDARD.decode(s) {
        Ok(v) => Some(v),
        Err(_) => None,
    }
}

/// Calls `String::from_utf8`, which accepts exactly the valid UTF-8 byte
/// sequences and keeps their chars.
#[verifier::external_body]
pub(crate) fn string_from_utf8(b: Vec<u8>) -> (r: Option<String>)
    ensures
        r is Some <==> valid_utf8(b@),
        r matches Some(s) ==> s@ == decode_utf8(b@),
{
    match String::from_utf8(b) {
        Ok(s) => Some(s),
        Err(_) => None,
    }
}

/// Calls `uuid::Uuid::new_v4` and returns the UUID's 128-bit value. Nothing
/// is stated of the value: it is random.
#[verifier::external_body]
pub(crate) fn random_uuid() -> (id: u128) {
    uuid::Uuid::new_v4().as_u128()
}

} // verus!
