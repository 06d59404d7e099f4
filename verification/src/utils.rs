//! Big-endian conversions between integers and bytes.

use vstd::prelude::*;

verus! {

/// The 16-bit number whose big-endian bytes are `high`, `low`.
pub open spec fn be16(high: u8, low: u8) -> u16 {
    (high as int * 256 + low as int) as u16
}

/// The 32-bit number whose big-endian bytes are `b0`, `b1`, `b2`, `b3`.
pub open spec fn be32(b0: u8, b1: u8, b2: u8, b3: u8) -> u32 {
    (((b0 as int * 256 + b1 as int) * 256 + b2 as int) * 256 + b3 as int) as u32
}

/// The two big-endian bytes of `val`.
pub open spec fn be16_bytes(val: u16) -> Seq<u8> {
    seq![(val / 256) as u8, (val % 256) as u8]
}

/// The four big-endian bytes of `val`.
pub open spec fn be32_bytes(val: u32) -> Seq<u8> {
    seq![
        (val / 16777216) as u8,
        (val / 65536 % 256) as u8,
        (val / 256 % 256) as u8,
        (val % 256) as u8,
    ]
}

/// Reads the first two bytes of `bytes` as a big-endian number; `None` when
/// there are fewer than two.
pub fn to_u16(bytes: &[u8]) -> (r: Option<u16>)
    ensures
        bytes@.len() >= 2 ==> r == Some(be16(bytes@[0], bytes@[1])),
        bytes@.len() < 2 ==> r is None,
{
    if bytes.len() < 2 {
        return None;
    }
    let high: u8 = bytes[0];
    let low: u8 = bytes[1];
    assert(((high as u16) << 8 | (low as u16)) == (high as u16) * 256 + (low as u16))
        by (bit_vector);
    Some((high as u16) << 8 | (low as u16))
}

/// The big-endian bytes of a 16-bit number.
pub fn from_u16(val: u16) -> (r: [u8; 2])
    ensures
        r@ == be16_bytes(val),
{
    assert((val >> 8) == val / 256) by (bit_vector);
    assert((val >> 8) < 256) by (bit_vector);
    assert((val & 0xff) == val % 256) by (bit_vector);
    let r = [(val >> 8) as u8, (val & 0xff) as u8];
    assert(r@ =~= be16_bytes(val));
    r
}

/// The big-endian bytes of a 32-bit number.
pub fn from_u32(val: u32) -> (r: [u8; 4])
    ensures
        r@ == be32_bytes(val),
{
    assert((val >> 24) == val / 16777216 && (val >> 24) < 256) by (bit_vector);
    assert(((val >> 16) & 0xff) == val / 65536 % 256) by (bit_vector);
    assert(((val >> 8) & 0xff) == val / 256 % 256) by (bit_vector);
    assert((val & 0xff) == val % 256) by (bit_vector);
    let r = [
        (val >> 24) as u8,
        ((val >> 16) & 0xff) as u8,
        ((val >> 8) & 0xff) as u8,
        (val & 0xff) as u8,
    ];
    assert(r@ =~= be32_bytes(val));
    r
}

/// Writing a 16-bit number as bytes and reading the bytes back gives the
/// number again.
pub proof fn lemma_u16_bytes_round_trip(val: u16)
    ensures
        be16_bytes(val).len() == 2,
        be16(be16_bytes(val)[0], be16_bytes(val)[1]) == val,
{
}

/// Reading two bytes as a number and writing the number gives the bytes
/// again.
pub proof fn lemma_bytes_u16_round_trip(high: u8, low: u8)
    ensures
        be16_bytes(be16(high, low)) =~= seq![high, low],
{
}

} // verus!
