use vstd::prelude::*;
use vstd::slice::slice_index_get;
use vstd::slice::slice_subrange;

use crate::error::PeError;

verus! {

/// The value of a 2-byte region read as a little-endian integer.
pub open spec fn spec_le_u16(s: Seq<u8>) -> int
    recommends
        s.len() == 2,
{
    s[0] + s[1] * 0x100
}

/// The value of a 4-byte region read as a little-endian integer.
pub open spec fn spec_le_u32(s: Seq<u8>) -> int
    recommends
        s.len() == 4,
{
    s[0] + s[1] * 0x100 + s[2] * 0x1_0000 + s[3] * 0x100_0000
}

/// The value of an 8-byte region read as a little-endian integer.
pub open spec fn spec_le_u64(s: Seq<u8>) -> int
    recommends
        s.len() == 8,
{
    s[0] + s[1] * 0x100 + s[2] * 0x1_0000 + s[3] * 0x100_0000 + s[4] * 0x1_0000_0000 + s[5]
        * 0x100_0000_0000 + s[6] * 0x1_0000_0000_0000 + s[7] * 0x100_0000_0000_0000
}

/// A subrange of a subrange of a sequence is a subrange of the original;
/// this is what ties the region a nested decoder read from back to the
/// whole input buffer.
pub proof fn lemma_subrange_of_subrange<T>(s: Seq<T>, i: int, j: int, k: int, l: int)
    requires
        0 <= i <= j <= s.len(),
        0 <= k <= l <= j - i,
    ensures
        s.subrange(i, j).subrange(k, l) == s.subrange(i + k, i + l),
{
    assert(s.subrange(i, j).subrange(k, l) =~= s.subrange(i + k, i + l));
}

/// The byte at offset `off` of `bytes`.
pub(crate) fn read_u8_at(bytes: &[u8], off: usize) -> (v: u8)
    requires
        off + 1 <= bytes@.len(),
    ensures
        v == bytes@[off as int],
{
    *slice_index_get(bytes, off)
}

/// The little-endian `u16` at offset `off` of `bytes`.
pub(crate) fn read_u16_at(bytes: &[u8], off: usize) -> (v: u16)
    requires
        off + 2 <= bytes@.len(),
    ensures
        v == spec_le_u16(bytes@.subrange(off as int, off + 2)),
{
    proof {
        vstd::slice::axiom_spec_len(bytes);
    }
    let b0 = *slice_index_get(bytes, off);
    let b1 = *slice_index_get(bytes, off + 1);
    b0 as u16 + (b1 as u16) * 0x100
}

/// The little-endian `u32` at offset `off` of `bytes`.
pub(crate) fn read_u32_at(bytes: &[u8], off: usize) -> (v: u32)
    requires
        off + 4 <= bytes@.len(),
    ensures
        v == spec_le_u32(bytes@.subrange(off as int, off + 4)),
{
    proof {
        vstd::slice::axiom_spec_len(bytes);
    }
    let b0 = *slice_index_get(bytes, off);
    let b1 = *slice_index_get(bytes, off + 1);
    let b2 = *slice_index_get(bytes, off + 2);
    let b3 = *slice_index_get(bytes, off + 3);
    b0 as u32 + (b1 as u32) * 0x100 + (b2 as u32) * 0x1_0000 + (b3 as u32) * 0x100_0000
}

/// The little-endian `u64` at offset `off` of `bytes`.
pub(crate) fn read_u64_at(bytes: &[u8], off: usize) -> (v: u64)
    requires
        off + 8 <= bytes@.len(),
    ensures
        v == spec_le_u64(bytes@.subrange(off as int, off + 8)),
{
    proof {
        vstd::slice::axiom_spec_len(bytes);
    }
    let b0 = *slice_index_get(bytes, off);
    let b1 = *slice_index_get(bytes, off + 1);
    let b2 = *slice_index_get(bytes, off + 2);
    let b3 = *slice_index_get(bytes, off + 3);
    let b4 = *slice_index_get(bytes, off + 4);
    let b5 = *slice_index_get(bytes, off + 5);
    let b6 = *slice_index_get(bytes, off + 6);
    let b7 = *slice_index_get(bytes, off + 7);
    b0 as u64 + (b1 as u64) * 0x100 + (b2 as u64) * 0x1_0000 + (b3 as u64) * 0x100_0000 + (
    b4 as u64) * 0x1_0000_0000 + (b5 as u64) * 0x100_0000_0000 + (b6 as u64) * 0x1_0000_0000_0000
        + (b7 as u64) * 0x100_0000_0000_0000
}

/// Consumes 1 byte from the front of `bytes`: the byte and the remainder,
/// or `BufferTooSmall` when the slice is empty.
pub fn take_u8(bytes: &[u8]) -> (r: Result<(u8, &[u8]), PeError>)
    ensures
        match r {
            Ok(p) => {
                &&& bytes@.len() >= 1
                &&& p.0 == bytes@[0]
                &&& p.1@ == bytes@.subrange(1, bytes@.len() as int)
            },
            Err(e) => {
                &&& bytes@.len() < 1
                &&& e == PeError::BufferTooSmall
            },
        },
{
    if bytes.len() < 1 {
        return Err(PeError::BufferTooSmall);
    }
    let value = read_u8_at(bytes, 0);
    let rest = slice_subrange(bytes, 1, bytes.len());
    Ok((value, rest))
}

/// Consumes 2 bytes from the front of `bytes`: the little-endian `u16`
/// they encode and the remainder, or `BufferTooSmall`.
pub fn take_u16(bytes: &[u8]) -> (r: Result<(u16, &[u8]), PeError>)
    ensures
        match r {
            Ok(p) => {
                &&& bytes@.len() >= 2
                &&& p.0 == spec_le_u16(bytes@.subrange(0, 2))
                &&& p.1@ == bytes@.subrange(2, bytes@.len() as int)
            },
            Err(e) => {
                &&& bytes@.len() < 2
                &&& e == PeError::BufferTooSmall
            },
        },
{
    if bytes.len() < 2 {
        return Err(PeError::BufferTooSmall);
    }
    let value = read_u16_at(bytes, 0);
    let rest = slice_subrange(bytes, 2, bytes.len());
    Ok((value, rest))
}

/// Consumes 4 bytes from the front of `bytes`: the little-endian `u32`
/// they encode and the remainder, or `BufferTooSmall`.
pub fn take_u32(bytes: &[u8]) -> (r: Result<(u32, &[u8]), PeError>)
    ensures
        match r {
            Ok(p) => {
                &&& bytes@.len() >= 4
                &&& p.0 == spec_le_u32(bytes@.subrange(0, 4))
                &&& p.1@ == bytes@.subrange(4, bytes@.len() as int)
            },
            Err(e) => {
                &&& bytes@.len() < 4
                &&& e == PeError::BufferTooSmall
            },
        },
{
    if bytes.len() < 4 {
        return Err(PeError::BufferTooSmall);
    }
    let value = read_u32_at(bytes, 0);
    let rest = slice_subrange(bytes, 4, bytes.len());
    Ok((value, rest))
}

/// Consumes 8 bytes from the front of `bytes`: the little-endian `u64`
/// they encode and the remainder, or `BufferTooSmall`.
pub fn take_u64(bytes: &[u8]) -> (r: Result<(u64, &[u8]), PeError>)
    ensures
        match r {
            Ok(p) => {
                &&& bytes@.len() >= 8
                &&& p.0 == spec_le_u64(bytes@.subrange(0, 8))
                &&& p.1@ == bytes@.subrange(8, bytes@.len() as int)
            },
            Err(e) => {
                &&& bytes@.len() < 8
                &&& e == PeError::BufferTooSmall
            },
        },
{
    if bytes.len() < 8 {
        return Err(PeError::BufferTooSmall);
    }
    let value = read_u64_at(bytes, 0);
    let rest = slice_subrange(bytes, 8, bytes.len());
    Ok((value, rest))
}

} // verus!
