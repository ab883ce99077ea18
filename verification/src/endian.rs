//! Big-endian integers as they appear in SCSI command and response buffers.
//!
//! The byte order conversions themselves are done by the `byteorder` crate;
//! this module states what they compute.

use byteorder::{BigEndian, ByteOrder};
use vstd::prelude::*;

verus! {

/// The value of the two bytes of `s` from `at`, most significant first.
pub open spec fn be16_at(s: Seq<u8>, at: int) -> int {
    s[at] * 0x100 + s[at + 1]
}

/// The value of the three bytes of `s` from `at`, most significant first.
pub open spec fn be24_at(s: Seq<u8>, at: int) -> int {
    s[at] * 0x1_0000 + s[at + 1] * 0x100 + s[at + 2]
}

/// The value of the four bytes of `s` from `at`, most significant first.
pub open spec fn be32_at(s: Seq<u8>, at: int) -> int {
    s[at] * 0x100_0000 + s[at + 1] * 0x1_0000 + s[at + 2] * 0x100 + s[at + 3]
}

/// The value of the eight bytes of `s` from `at`, most significant first.
pub open spec fn be64_at(s: Seq<u8>, at: int) -> int {
    be32_at(s, at) * 0x1_0000_0000 + be32_at(s, at + 4)
}

/// The four bytes that hold `n`, most significant first.
pub open spec fn be32_bytes(n: u32) -> Seq<u8> {
    seq![
        (n / 0x100_0000) as u8,
        (n / 0x1_0000 % 0x100) as u8,
        (n / 0x100 % 0x100) as u8,
        (n % 0x100) as u8,
    ]
}

/// The eight bytes that hold `n`, most significant first.
pub open spec fn be64_bytes(n: u64) -> Seq<u8> {
    be32_bytes((n / 0x1_0000_0000) as u32) + be32_bytes((n % 0x1_0000_0000) as u32)
}

/// `byteorder::BigEndian::read_u16`: the first two bytes of `buf` read as a
/// big-endian number. The outside function panics on a shorter buffer.
#[verifier::external_body]
pub(crate) fn read_be16(buf: &[u8]) -> (r: u16)
    requires
        buf@.len() >= 2,
    ensures
        r == be16_at(buf@, 0),
{
    BigEndian::read_u16(buf)
}

/// `byteorder::BigEndian::read_u32`: the first four bytes of `buf` read as a
/// big-endian number. The outside function panics on a shorter buffer.
#[verifier::external_body]
pub(crate) fn read_be32(buf: &[u8]) -> (r: u32)
    requires
        buf@.len() >= 4,
    ensures
        r == be32_at(buf@, 0),
{
    BigEndian::read_u32(buf)
}

/// `byteorder::BigEndian::read_u64`: the first eight bytes of `buf` read as a
/// big-endian number. The outside function panics on a shorter buffer.
#[verifier::external_body]
pub(crate) fn read_be64(buf: &[u8]) -> (r: u64)
    requires
        buf@.len() >= 8,
    ensures
        r == be64_at(buf@, 0),
{
    BigEndian::read_u64(buf)
}

/// `byteorder::BigEndian::write_u32` on a buffer of four bytes: the bytes of
/// `n`, most significant first.
#[verifier::external_body]
pub(crate) fn write_be32(n: u32) -> (r: [u8; 4])
    ensures
        r@ == be32_bytes(n),
{
    let mut buf = [0u8; 4];
    BigEndian::write_u32(&mut buf, n);
    buf
}

/// `byteorder::BigEndian::write_u64` on a buffer of eight bytes: the bytes of
/// `n`, most significant first.
#[verifier::external_body]
pub(crate) fn write_be64(n: u64) -> (r: [u8; 8])
    ensures
        r@ == be64_bytes(n),
{
    let mut buf = [0u8; 8];
    BigEndian::write_u64(&mut buf, n);
    buf
}

/// Reading back what was written gives the number again.
pub proof fn lemma_be32_round_trip(n: u32)
    ensures
        be32_bytes(n).len() == 4,
        be32_at(be32_bytes(n), 0) == n,
{
}

/// Reading back what was written gives the number again.
pub proof fn lemma_be64_round_trip(n: u64)
    ensures
        be64_bytes(n).len() == 8,
        be64_at(be64_bytes(n), 0) == n,
{
    lemma_be32_round_trip((n / 0x1_0000_0000) as u32);
    lemma_be32_round_trip((n % 0x1_0000_0000) as u32);
}

} // verus!
