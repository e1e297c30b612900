use vstd::prelude::*;
use vstd::slice::slice_subrange;

use crate::error::PeError;
use crate::parsing::spec_le_u16;
use crate::parsing::spec_le_u32;
use crate::parsing::read_u16_at;
use crate::parsing::read_u32_at;

verus! {

/// MS-DOS legacy header: 19 named scalar fields and two reserved-word
/// arrays, occupying exactly 64 bytes on the wire.
#[derive(Debug)]
pub struct DosHeader {
    /// Magic number
    pub e_magic: u16,
    /// Bytes on last page of file
    pub e_cblp: u16,
    /// Pages in file
    pub e_cp: u16,
    /// Relocations
    pub e_crlc: u16,
    /// Size of header in paragraphs
    pub e_cparhdr: u16,
    /// Minimum extra paragraphs needed
    pub e_minalloc: u16,
    /// Maximum extra paragraphs needed
    pub e_maxalloc: u16,
    /// Initial (relative) SS value
    pub e_ss: u16,
    /// Initial SP value
    pub e_sp: u16,
    /// Checksum
    pub e_csum: u16,
    /// Initial IP value
    pub e_ip: u16,
    /// Initial (relative) CS value
    pub e_cs: u16,
    /// File address of relocation table
    pub e_lfarlc: u16,
    /// Overlay number
    pub e_ovno: u16,
    /// Reserved words (array length is 4)
    pub e_res: Vec<u16>,
    /// OEM identifier (for e_oeminfo)
    pub e_oemid: u16,
    /// OEM information; e_oemid specific
    pub e_oeminfo: u16,
    /// Reserved words (array length is 10)
    pub e_res2: Vec<u16>,
    /// File address of new exe header
    pub e_lfanew: u32,
}

/// Every field of `h` is the little-endian decoding of its fixed slot in
/// the first 64 bytes of `s`.
pub open spec fn dos_header_matches(h: DosHeader, s: Seq<u8>) -> bool
    recommends
        s.len() >= 64,
{
    &&& h.e_magic == spec_le_u16(s.subrange(0, 2))
    &&& h.e_cblp == spec_le_u16(s.subrange(2, 4))
    &&& h.e_cp == spec_le_u16(s.subrange(4, 6))
    &&& h.e_crlc == spec_le_u16(s.subrange(6, 8))
    &&& h.e_cparhdr == spec_le_u16(s.subrange(8, 10))
    &&& h.e_minalloc == spec_le_u16(s.subrange(10, 12))
    &&& h.e_maxalloc == spec_le_u16(s.subrange(12, 14))
    &&& h.e_ss == spec_le_u16(s.subrange(14, 16))
    &&& h.e_sp == spec_le_u16(s.subrange(16, 18))
    &&& h.e_csum == spec_le_u16(s.subrange(18, 20))
    &&& h.e_ip == spec_le_u16(s.subrange(20, 22))
    &&& h.e_cs == spec_le_u16(s.subrange(22, 24))
    &&& h.e_lfarlc == spec_le_u16(s.subrange(24, 26))
    &&& h.e_ovno == spec_le_u16(s.subrange(26, 28))
    &&& h.e_res@ == (seq![
        spec_le_u16(s.subrange(28, 30)) as u16,
        spec_le_u16(s.subrange(30, 32)) as u16,
        spec_le_u16(s.subrange(32, 34)) as u16,
        spec_le_u16(s.subrange(34, 36)) as u16,
    ])
    &&& h.e_oemid == spec_le_u16(s.subrange(36, 38))
    &&& h.e_oeminfo == spec_le_u16(s.subrange(38, 40))
    &&& h.e_res2@ == (seq![
        spec_le_u16(s.subrange(40, 42)) as u16,
        spec_le_u16(s.subrange(42, 44)) as u16,
        spec_le_u16(s.subrange(44, 46)) as u16,
        spec_le_u16(s.subrange(46, 48)) as u16,
        spec_le_u16(s.subrange(48, 50)) as u16,
        spec_le_u16(s.subrange(50, 52)) as u16,
        spec_le_u16(s.subrange(52, 54)) as u16,
        spec_le_u16(s.subrange(54, 56)) as u16,
        spec_le_u16(s.subrange(56, 58)) as u16,
        spec_le_u16(s.subrange(58, 60)) as u16,
    ])
    &&& h.e_lfanew == spec_le_u32(s.subrange(60, 64))
}

impl DosHeader {
    /// Decodes the fixed 64-byte MS-DOS header from the front of `bytes`
    /// and returns it with the remainder; `BufferTooSmall` when fewer
    /// than 64 bytes remain, and no partial header is ever built.
    pub fn from_bytes<'a>(bytes: &'a [u8]) -> (r: Result<(DosHeader, &'a [u8]), PeError>)
        ensures
            match r {
                Ok(p) => {
                    &&& bytes@.len() >= 64
                    &&& dos_header_matches(p.0, bytes@)
                    &&& p.1@ == bytes@.subrange(64, bytes@.len() as int)
                },
                Err(e) => {
                    &&& bytes@.len() < 64
                    &&& e == PeError::BufferTooSmall
                },
            },
    {
        if bytes.len() < 64 {
            return Err(PeError::BufferTooSmall);
        }
        let e_magic = read_u16_at(bytes, 0);
        let e_cblp = read_u16_at(bytes, 2);
        let e_cp = read_u16_at(bytes, 4);
        let e_crlc = read_u16_at(bytes, 6);
        let e_cparhdr = read_u16_at(bytes, 8);
        let e_minalloc = read_u16_at(bytes, 10);
        let e_maxalloc = read_u16_at(bytes, 12);
        let e_ss = read_u16_at(bytes, 14);
        let e_sp = read_u16_at(bytes, 16);
        let e_csum = read_u16_at(bytes, 18);
        let e_ip = read_u16_at(bytes, 20);
        let e_cs = read_u16_at(bytes, 22);
        let e_lfarlc = read_u16_at(bytes, 24);
        let e_ovno = read_u16_at(bytes, 26);
        let e_res = vec![
            read_u16_at(bytes, 28),
            read_u16_at(bytes, 30),
            read_u16_at(bytes, 32),
            read_u16_at(bytes, 34),
        ];
        let e_oemid = read_u16_at(bytes, 36);
        let e_oeminfo = read_u16_at(bytes, 38);
        let e_res2 = vec![
            read_u16_at(bytes, 40),
            read_u16_at(bytes, 42),
            read_u16_at(bytes, 44),
            read_u16_at(bytes, 46),
            read_u16_at(bytes, 48),
            read_u16_at(bytes, 50),
            read_u16_at(bytes, 52),
            read_u16_at(bytes, 54),
            read_u16_at(bytes, 56),
            read_u16_at(bytes, 58),
        ];
        let e_lfanew = read_u32_at(bytes, 60);
        let rest = slice_subrange(bytes, 64, bytes.len());
        Ok((
            DosHeader {
                e_magic,
                e_cblp,
                e_cp,
                e_crlc,
                e_cparhdr,
                e_minalloc,
                e_maxalloc,
                e_ss,
                e_sp,
                e_csum,
                e_ip,
                e_cs,
                e_lfarlc,
                e_ovno,
                e_res,
                e_oemid,
                e_oeminfo,
                e_res2,
                e_lfanew,
            },
            rest,
        ))
    }

    /// The wire size of the MS-DOS header: a constant 64 bytes, exposed
    /// so callers can compute the DOS-stub boundary.
    pub fn len() -> (n: usize)
        ensures
            n == 64,
    {
        64
    }
}

} // verus!
