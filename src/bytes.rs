//! Little-endian 32-bit integers, through the byteorder crate.
use vstd::prelude::*;

use byteorder::{ByteOrder, LittleEndian};

verus! {

/// The four bytes of `n`, least significant first.
pub open spec fn le32(n: u32) -> Seq<u8> {
    seq![
        (n % 256) as u8,
        ((n / 256) % 256) as u8,
        ((n / 65536) % 256) as u8,
        ((n / 16777216) % 256) as u8,
    ]
}

/// The number whose bytes, least significant first, are `b[0..4]`.
pub open spec fn le32_value(b: Seq<u8>) -> u32 {
    (b[0] + 256 * b[1] + 65536 * b[2] + 16777216 * b[3]) as u32
}

/// Relies on byteorder's `LittleEndian::write_u32`, which stores `n` in the
/// first four bytes of the buffer, least significant byte first.
#[verifier::external_body]
pub fn u32_to_le_bytes(n: u32) -> (r: Vec<u8>)
    ensures
        r@ == le32(n),
{
    let mut buf = [0u8; 4];
    LittleEndian::write_u32(&mut buf, n);
    buf.to_vec()
}

/// Relies on byteorder's `LittleEndian::read_u32`, which reads the first four
/// bytes of the buffer, least significant byte first, and panics on a
/// shorter buffer.
#[verifier::external_body]
pub fn u32_from_le_bytes(b: &[u8]) -> (r: u32)
    requires
        b@.len() >= 4,
    ensures
        r == le32_value(b@),
{
    LittleEndian::read_u32(b)
}

} // verus!
