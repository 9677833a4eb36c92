use vstd::prelude::*;

verus! {

/// The CRC-32 (CKSUM parameters) of a byte sequence.
pub uninterp spec fn crc32_cksum(bytes: Seq<u8>) -> u32;

/// The four bytes of `x`, most significant first.
pub open spec fn be_bytes(x: u32) -> Seq<u8> {
    seq![(x >> 24u32) as u8, (x >> 16u32) as u8, (x >> 8u32) as u8, x as u8]
}

/// Relies on `crc::Crc::<u32>::new(&crc::CRC_32_CKSUM).checksum`: the
/// CRC-32/CKSUM of the given bytes, which depends on those bytes alone.
#[verifier::external_body]
pub(crate) fn cksum(bytes: &[u8]) -> (r: u32)
    ensures
        r == crc32_cksum(bytes@),
{
    crc::Crc::<u32>::new(&crc::CRC_32_CKSUM).checksum(bytes)
}

/// Appends the four big-endian bytes of `x` to `v`.
pub fn push_be_bytes(v: &mut Vec<u8>, x: u32)
    ensures
        final(v)@ == old(v)@ + be_bytes(x),
{
    v.push((x >> 24u32) as u8);
    v.push((x >> 16u32) as u8);
    v.push((x >> 8u32) as u8);
    v.push(x as u8);
    assert(final(v)@ =~= old(v)@ + be_bytes(x));
}

} // verus!
