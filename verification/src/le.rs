//! Little-endian integers as byte sequences.

use byteorder::{ByteOrder, LittleEndian};
use vstd::prelude::*;

verus! {

/// The number spelled by the first two bytes of `b`, least significant first.
pub open spec fn le_u16(b: Seq<u8>) -> u16
    recommends
        b.len() >= 2,
{
    (b[0] + 0x100 * b[1]) as u16
}

/// The number spelled by the first four bytes of `b`, least significant first.
pub open spec fn le_u32(b: Seq<u8>) -> u32
    recommends
        b.len() >= 4,
{
    (b[0] + 0x100 * b[1] + 0x1_0000 * b[2] + 0x100_0000 * b[3]) as u32
}

/// The two bytes that spell `n`, least significant first.
pub open spec fn u16_le(n: u16) -> Seq<u8> {
    seq![(n % 0x100) as u8, (n / 0x100) as u8]
}

/// The four bytes that spell `n`, least significant first.
pub open spec fn u32_le(n: u32) -> Seq<u8> {
    seq![
        (n % 0x100) as u8,
        (n / 0x100 % 0x100) as u8,
        (n / 0x1_0000 % 0x100) as u8,
        (n / 0x100_0000) as u8,
    ]
}

/// Reading back the bytes of a 16-bit number gives the number.
pub proof fn lemma_le_u16_of_bytes(n: u16)
    ensures
        u16_le(n).len() == 2,
        le_u16(u16_le(n)) == n,
{
}

/// Spelling the number read from two bytes gives those two bytes.
pub proof fn lemma_bytes_of_le_u16(b: Seq<u8>)
    requires
        b.len() == 2,
    ensures
        u16_le(le_u16(b)) == b,
{
    assert(u16_le(le_u16(b)) =~= b);
}

/// Reading back the bytes of a 32-bit number gives the number.
pub proof fn lemma_le_u32_of_bytes(n: u32)
    ensures
        u32_le(n).len() == 4,
        le_u32(u32_le(n)) == n,
{
}

/// Spelling the number read from four bytes gives those four bytes.
pub proof fn lemma_bytes_of_le_u32(b: Seq<u8>)
    requires
        b.len() == 4,
    ensures
        u32_le(le_u32(b)) == b,
{
    assert(u32_le(le_u32(b)) =~= b);
}

/// `byteorder::LittleEndian::read_u16`, which panics on fewer than two bytes
/// and otherwise returns `u16::from_le_bytes` of the first two. Trusted: the
/// result is the first byte plus 256 times the second.
#[verifier::external_body]
pub(crate) fn read_u16_le(buf: &[u8]) -> (n: u16)
    requires
        buf@.len() >= 2,
    ensures
        n == le_u16(buf@),
{
    LittleEndian::read_u16(buf)
}

/// `byteorder::LittleEndian::read_u32`, which panics on fewer than four bytes
/// and otherwise returns `u32::from_le_bytes` of the first four. Trusted: the
/// result is the sum of the four bytes weighted by 1, 2^8, 2^16 and 2^24.
#[verifier::external_body]
pub(crate) fn read_u32_le(buf: &[u8]) -> (n: u32)
    requires
        buf@.len() >= 4,
    ensures
        n == le_u32(buf@),
{
    LittleEndian::read_u32(buf)
}

/// Appends the two little-endian bytes of `n` to `out`.
pub fn push_u16_le(out: &mut Vec<u8>, n: u16)
    ensures
        final(out)@ == old(out)@ + u16_le(n),
{
    out.push((n % 0x100) as u8);
    out.push((n / 0x100) as u8);
    assert(out@ =~= old(out)@ + u16_le(n));
}

/// Appends the four little-endian bytes of `n` to `out`.
pub fn push_u32_le(out: &mut Vec<u8>, n: u32)
    ensures
        final(out)@ == old(out)@ + u32_le(n),
{
    out.push((n % 0x100) as u8);
    out.push((n / 0x100 % 0x100) as u8);
    out.push((n / 0x1_0000 % 0x100) as u8);
    out.push((n / 0x100_0000) as u8);
    assert(out@ =~= old(out)@ + u32_le(n));
}

} // verus!
