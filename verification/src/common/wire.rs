//! Reading of fixed-width fields from a byte buffer.

use byteorder::{ByteOrder, NetworkEndian};
use vstd::prelude::*;
use crate::utils::{be16, be32};

verus! {

/// Calls `byteorder`'s `NetworkEndian::read_u16`, which reads the first two
/// bytes of `buf` as a big-endian number and panics on a shorter buffer.
/// Trusted: the result is that number.
#[verifier::external_body]
pub(crate) fn read_u16(buf: &[u8]) -> (r: u16)
    requires
        buf@.len() >= 2,
    ensures
        r == be16(buf@[0], buf@[1]),
{
    NetworkEndian::read_u16(buf)
}

/// Calls `byteorder`'s `NetworkEndian::read_u32`, which reads the first four
/// bytes of `buf` as a big-endian number and panics on a shorter buffer.
/// Trusted: the result is that number.
#[verifier::external_body]
pub(crate) fn read_u32(buf: &[u8]) -> (r: u32)
    requires
        buf@.len() >= 4,
    ensures
        r == be32(buf@[0], buf@[1], buf@[2], buf@[3]),
{
    NetworkEndian::read_u32(buf)
}

} // verus!
