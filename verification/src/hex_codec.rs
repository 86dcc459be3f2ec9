//! Hex encoding and decoding of byte payloads.
//!
//! Encoding and decoding are performed by the `hex` crate behind trusted
//! wrappers; the spec functions here say exactly what those calls return, and
//! the round-trip law is proved from them.

use vstd::prelude::*;

verus! {

/// A character the hex alphabet accepts: decoding takes either case.
pub open spec fn is_hex_digit(c: char) -> bool {
    ('0' <= c && c <= '9') || ('a' <= c && c <= 'f') || ('A' <= c && c <= 'F')
}

/// Numeric value of a hex digit character.
pub open spec fn hex_digit_value(c: char) -> int {
    if '0' <= c && c <= '9' {
        c as int - '0' as int
    } else if 'a' <= c && c <= 'f' {
        c as int - 'a' as int + 10
    } else {
        c as int - 'A' as int + 10
    }
}

/// The lowercase hex digit for a nibble value.
pub open spec fn hex_char_of(v: int) -> char {
    if v == 0 { '0' }
    else if v == 1 { '1' }
    else if v == 2 { '2' }
    else if v == 3 { '3' }
    else if v == 4 { '4' }
    else if v == 5 { '5' }
    else if v == 6 { '6' }
    else if v == 7 { '7' }
    else if v == 8 { '8' }
    else if v == 9 { '9' }
    else if v == 10 { 'a' }
    else if v == 11 { 'b' }
    else if v == 12 { 'c' }
    else if v == 13 { 'd' }
    else if v == 14 { 'e' }
    else { 'f' }
}

/// The lowercase hex string that spells a byte sequence: two digits per byte,
/// high nibble first.
pub open spec fn spec_hex_encode(b: Seq<u8>) -> Seq<char> {
    Seq::new(
        2 * b.len(),
        |i: int| if i % 2 == 0 {
            hex_char_of(b[i / 2] as int / 16)
        } else {
            hex_char_of(b[i / 2] as int % 16)
        },
    )
}

/// Whether a string is well-formed hex: even length, every character a hex
/// digit of either case.
pub open spec fn spec_hex_valid(s: Seq<char>) -> bool {
    &&& s.len() % 2 == 0
    &&& forall|i: int| 0 <= i < s.len() ==> is_hex_digit(#[trigger] s[i])
}

/// The bytes a well-formed hex string spells.
pub open spec fn spec_hex_decode(s: Seq<char>) -> Seq<u8> {
    Seq::new(
        s.len() / 2,
        |i: int| (16 * hex_digit_value(s[2 * i]) + hex_digit_value(s[2 * i + 1])) as u8,
    )
}

/// Decoding with the malformed-input policy of the protocol: a string that is
/// not well-formed hex decodes to the empty byte sequence, never an error.
pub open spec fn spec_decode_or_empty(s: Seq<char>) -> Seq<u8> {
    if spec_hex_valid(s) {
        spec_hex_decode(s)
    } else {
        Seq::empty()
    }
}

/// Relies on hex::encode: each byte becomes two lowercase hex digits, high
/// nibble first, so the result spells exactly the input bytes.
#[verifier::external_body]
pub(crate) fn hex_encode(b: &Vec<u8>) -> (r: String)
    ensures
        r@ == spec_hex_encode(b@),
{
    hex::encode(b)
}

/// Relies on hex::decode: it succeeds exactly on even-length strings of hex
/// digits of either case, and returns the bytes they spell.
#[verifier::external_body]
pub(crate) fn hex_decode(s: &str) -> (r: Option<Vec<u8>>)
    ensures
        r is Some <==> spec_hex_valid(s@),
        r matches Some(b) ==> b@ == spec_hex_decode(s@),
{
    hex::decode(s).ok()
}

/// Decodes a hex string, mapping any malformed input to empty bytes, the
/// policy every protocol operation applies to incoming payloads.
pub fn decode_or_empty(s: &str) -> (r: Vec<u8>)
    ensures
        r@ == spec_decode_or_empty(s@),
{
    match hex_decode(s) {
        Some(b) => b,
        None => Vec::new(),
    }
}

/// Every nibble value encodes to a digit that decodes back to it.
proof fn lemma_hex_char_of_value(v: int)
    requires
        0 <= v < 16,
    ensures
        is_hex_digit(hex_char_of(v)),
        hex_digit_value(hex_char_of(v)) == v,
{
}

/// Hex round trip: the encoding of any byte sequence is well-formed hex, and
/// decoding it yields the original bytes.
pub proof fn lemma_hex_round_trip(b: Seq<u8>)
    ensures
        spec_hex_valid(spec_hex_encode(b)),
        spec_hex_decode(spec_hex_encode(b)) == b,
{
    let e = spec_hex_encode(b);
    assert forall|i: int| 0 <= i < e.len() implies is_hex_digit(#[trigger] e[i]) by {
        let v = b[i / 2] as int;
        if i % 2 == 0 {
            lemma_hex_char_of_value(v / 16);
        } else {
            lemma_hex_char_of_value(v % 16);
        }
    }
    assert(spec_hex_decode(e) =~= b) by {
        assert forall|i: int| 0 <= i < b.len() implies spec_hex_decode(e)[i] == b[i] by {
            let v = b[i] as int;
            assert(e[2 * i] == hex_char_of(v / 16));
            assert(e[2 * i + 1] == hex_char_of(v % 16));
            lemma_hex_char_of_value(v / 16);
            lemma_hex_char_of_value(v % 16);
            assert(16 * (v / 16) + v % 16 == v) by (nonlinear_arith);
        }
    }
}

} // verus!
