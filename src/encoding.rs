//! Byte-level encodings used by the call composer and the error surface:
//! SCALE compact lengths, little-endian integers and lowercase hex.

use vstd::prelude::*;
use parity_scale_codec::Encode;

verus! {

/// Little-endian bytes of a 32-bit unsigned integer.
pub open spec fn le_u32(x: u32) -> Seq<u8> {
    seq![
        (x % 256) as u8,
        ((x / 256) % 256) as u8,
        ((x / 65536) % 256) as u8,
        ((x / 16777216) % 256) as u8,
    ]
}

/// Little-endian bytes of a 16-bit unsigned integer.
pub open spec fn le_u16(x: u16) -> Seq<u8> {
    seq![(x % 256) as u8, ((x / 256) % 256) as u8]
}

/// SCALE compact encoding of a 32-bit unsigned integer: the two low bits of
/// the first byte select single-byte, two-byte, four-byte or big-integer mode.
pub open spec fn compact_u32(n: u32) -> Seq<u8> {
    if n < 64 {
        seq![(n * 4) as u8]
    } else if n < 16384 {
        le_u16((n * 4 + 1) as u16)
    } else if n < 1073741824 {
        le_u32((n * 4 + 2) as u32)
    } else {
        seq![3u8] + le_u32(n)
    }
}

/// Lowercase hexadecimal digit for a value below sixteen.
pub open spec fn hex_digit(d: u8) -> char {
    seq!['0', '1', '2', '3', '4', '5', '6', '7', '8', '9', 'a', 'b', 'c', 'd', 'e', 'f'][d as int]
}

/// Lowercase hexadecimal rendering: two digits per byte, high nibble first.
pub open spec fn hex_of(b: Seq<u8>) -> Seq<char>
    decreases b.len(),
{
    if b.len() == 0 {
        Seq::empty()
    } else {
        hex_of(b.drop_last()) + seq![hex_digit(b.last() / 16), hex_digit(b.last() % 16)]
    }
}

/// Relies on parity-scale-codec's `Encode` for `u32`: four little-endian bytes.
#[verifier::external_body]
pub(crate) fn encode_u32(x: u32) -> (r: Vec<u8>)
    ensures
        r@ == le_u32(x),
{
    x.encode()
}

/// Relies on parity-scale-codec's `Encode` for `Compact<u32>`, the length
/// prefix that SCALE writes before the items of a sequence.
#[verifier::external_body]
pub(crate) fn encode_compact_u32(n: u32) -> (r: Vec<u8>)
    ensures
        r@ == compact_u32(n),
{
    parity_scale_codec::Compact(n).encode()
}

/// Relies on `hex::encode`: two lowercase digits for each byte, in order.
#[verifier::external_body]
pub(crate) fn hex_encode(b: &[u8]) -> (r: String)
    ensures
        r@ == hex_of(b@),
{
    hex::encode(b)
}

} // verus!
