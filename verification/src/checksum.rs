//! CRC-32 of a firmware payload.

use vstd::prelude::*;

verus! {

/// The CRC-32 (IEEE 802.3 polynomial, as used by gzip and zlib) of a byte
/// sequence, as `crc32fast` computes it.
pub uninterp spec fn crc32(bytes: Seq<u8>) -> u32;

/// `crc32fast::hash` is trusted to be a function of the bytes alone: it
/// returns the CRC-32 that [`crc32`] names.
pub assume_specification[ crc32fast::hash ](buf: &[u8]) -> (sum: u32)
    ensures
        sum == crc32(buf@),
;

} // verus!
