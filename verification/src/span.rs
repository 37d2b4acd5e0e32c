//! Bounded little-endian reads over an externally owned byte region.
//!
//! Every structure the resolver and the introspection layer look at — a
//! module's image, a control block — is treated as a read-only span of
//! bytes, and every access is a fixed-offset read through one of these
//! accessors, so correctness is checked without any dependence on live
//! process memory.

use vstd::prelude::*;

verus! {

/// The 16-bit little-endian value at `off`.
pub open spec fn u16_at(s: Seq<u8>, off: int) -> u16
    recommends
        0 <= off,
        off + 2 <= s.len(),
{
    (s[off] + s[off + 1] * 0x100) as u16
}

/// The 32-bit little-endian value at `off`.
pub open spec fn u32_at(s: Seq<u8>, off: int) -> u32
    recommends
        0 <= off,
        off + 4 <= s.len(),
{
    (s[off] + s[off + 1] * 0x100 + s[off + 2] * 0x1_0000 + s[off + 3] * 0x100_0000) as u32
}

/// The 64-bit little-endian value at `off`.
pub open spec fn u64_at(s: Seq<u8>, off: int) -> u64
    recommends
        0 <= off,
        off + 8 <= s.len(),
{
    (u32_at(s, off) + (u32_at(s, off + 4) as int) * 0x1_0000_0000) as u64
}

/// Read the 16-bit little-endian value at `off`.
pub fn read_u16_le(data: &[u8], off: usize) -> (r: u16)
    requires
        off + 2 <= data.len(),
    ensures
        r == u16_at(data@, off as int),
{
    data[off] as u16 + (data[off + 1] as u16) * 0x100
}

/// Read the 32-bit little-endian value at `off`.
pub fn read_u32_le(data: &[u8], off: usize) -> (r: u32)
    requires
        off + 4 <= data.len(),
    ensures
        r == u32_at(data@, off as int),
{
    data[off] as u32 + (data[off + 1] as u32) * 0x100 + (data[off + 2] as u32) * 0x1_0000 + (
    data[off + 3] as u32) * 0x100_0000
}

/// Read the 64-bit little-endian value at `off`.
pub fn read_u64_le(data: &[u8], off: usize) -> (r: u64)
    requires
        off + 8 <= data.len(),
    ensures
        r == u64_at(data@, off as int),
{
    let lo = read_u32_le(data, off);
    let hi = read_u32_le(data, off + 4);
    lo as u64 + (hi as u64) * 0x1_0000_0000
}

} // verus!
