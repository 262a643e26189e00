//! Hexadecimal encoding of content hashes.
//!
//! The cache layout and the routing events both speak hex: a route's
//! content-hash tag carries 64 hex digits, and a cache entry's file name is
//! the hash's hex form. The encoding itself is done by the `hex` crate; its
//! behaviour is small enough to state exactly, so the wrappers below carry
//! full contracts over the spec functions of this module.

use vstd::prelude::*;

verus! {

/// Is `c` a hexadecimal digit (either case)?
pub open spec fn is_hex_digit(c: char) -> bool {
    ('0' <= c && c <= '9') || ('a' <= c && c <= 'f') || ('A' <= c && c <= 'F')
}

/// The numeric value of a hex digit.
pub open spec fn hex_digit_value(c: char) -> int {
    if '0' <= c && c <= '9' {
        c as int - '0' as int
    } else if 'a' <= c && c <= 'f' {
        c as int - 'a' as int + 10
    } else {
        c as int - 'A' as int + 10
    }
}

/// The lowercase hex digit for a value in `0 .. 16`.
pub open spec fn hex_digit_char(v: int) -> char {
    if v < 10 {
        (('0' as int) + v) as char
    } else {
        (('a' as int) + (v - 10)) as char
    }
}

/// The lowercase hex string of a byte sequence: two digits per byte, high
/// nibble first.
pub open spec fn bytes_to_hex(b: Seq<u8>) -> Seq<char>
    decreases b.len(),
{
    if b.len() == 0 {
        Seq::empty()
    } else {
        bytes_to_hex(b.drop_last()) + seq![
            hex_digit_char(b.last() as int / 16),
            hex_digit_char(b.last() as int % 16),
        ]
    }
}

/// Is `s` a well-formed hex string: even length, all hex digits?
pub open spec fn is_hex_string(s: Seq<char>) -> bool {
    s.len() % 2 == 0 && forall|i: int| 0 <= i < s.len() ==> is_hex_digit(#[trigger] s[i])
}

/// The bytes denoted by a well-formed hex string, pairwise.
pub open spec fn hex_to_bytes(s: Seq<char>) -> Seq<u8>
    decreases s.len(),
{
    if s.len() < 2 {
        Seq::empty()
    } else {
        hex_to_bytes(s.drop_last().drop_last()).push(
            (hex_digit_value(s[s.len() - 2]) * 16 + hex_digit_value(s[s.len() - 1])) as u8,
        )
    }
}

/// A hex string is twice as long as the bytes it encodes.
pub proof fn lemma_bytes_to_hex_len(b: Seq<u8>)
    ensures
        bytes_to_hex(b).len() == 2 * b.len(),
    decreases b.len(),
{
    if b.len() > 0 {
        lemma_bytes_to_hex_len(b.drop_last());
    }
}

/// Relies on `hex::encode`: returns the lowercase hex form of the bytes,
/// two digits per byte, high nibble first.
#[verifier::external_body]
pub(crate) fn hex_encode(b: &[u8]) -> (r: String)
    ensures
        r@ == bytes_to_hex(b@),
{
    hex::encode(b)
}

/// Relies on `hex::decode`: succeeds exactly on even-length strings of hex
/// digits (either case), pairing digits high nibble first.
#[verifier::external_body]
pub(crate) fn hex_decode(s: &str) -> (r: Option<Vec<u8>>)
    ensures
        r is Some <==> is_hex_string(s@),
        r matches Some(v) ==> v@ == hex_to_bytes(s@),
{
    hex::decode(s).ok()
}

} // verus!
