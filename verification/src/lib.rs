//! Decoder for the binary header region of a Portable Executable (PE)
//! image — the format Windows uses for executables, DLLs, and drivers —
//! into a structured, strongly typed in-memory representation, directly
//! from a byte buffer, without executing or loading the image.
//!
//! The pipeline is a bounds-checked, little-endian byte reader composed
//! with a sequence of typed header decoders: legacy DOS header, then the
//! COFF file header, then the variant-dispatched optional header. Each
//! decoder consumes a prefix of "the rest of the buffer" and returns the
//! new remainder, so composition never re-reads or skips bytes.

pub mod characteristics;
pub mod dos;
pub mod error;
pub mod file_header;
pub mod machine;
pub mod opt_header;
pub mod parsing;
pub mod section;

use vstd::prelude::*;
use vstd::slice::slice_subrange;
use vstd::slice::slice_to_vec;

use crate::dos::dos_header_matches;
use crate::dos::DosHeader;
use crate::error::PeError;
use crate::parsing::spec_le_u32;
use crate::file_header::file_header_matches;
use crate::file_header::spec_file_header_error;
use crate::file_header::FileHeader;
use crate::opt_header::opt_header_matches;
use crate::opt_header::spec_opt_header_error;
use crate::opt_header::spec_opt_header_len;
use crate::opt_header::OptionalHeader;
use crate::opt_header::WindowsSpecific;
use crate::parsing::lemma_subrange_of_subrange;

verus! {

/// Object representing a Portable Executable file (or PE) as described
/// by Microsoft's documentation.
pub struct PE<'pe> {
    /// The bytes not consumed by header decoding (future section table
    /// and data-directory content).
    pub bytes: &'pe [u8],
    /// MS-DOS Header
    pub dos_header: DosHeader,
    /// MS-DOS Stub -> Not parsed
    pub dos_stub: Vec<u8>,
    /// PE File Header
    pub file_header: FileHeader,
    /// PE Optional Header
    pub opt_header: OptionalHeader,
}

/// The DOS header's `e_lfanew` field of a whole-image region: the
/// absolute file offset at which the COFF file header starts.
pub open spec fn spec_lfanew(s: Seq<u8>) -> int {
    spec_le_u32(s.subrange(60, 64))
}

/// The one reason a whole-image decode of `s` fails, or `None` when it
/// succeeds, mirroring the pipeline stage by stage: the 64-byte DOS
/// header, the `e_lfanew` bound checks, the COFF file header at
/// `e_lfanew`, and the optional header right after it.
pub open spec fn spec_pe_error(s: Seq<u8>) -> Option<PeError> {
    if s.len() < 64 {
        Some(PeError::BufferTooSmall)
    } else {
        let n = s.len() as int;
        let lfa = spec_lfanew(s);
        if lfa < 64 {
            Some(PeError::MalformedOffset)
        } else if n < lfa {
            Some(PeError::BufferTooSmall)
        } else if spec_file_header_error(s.subrange(lfa, n)) is Some {
            spec_file_header_error(s.subrange(lfa, n))
        } else {
            spec_opt_header_error(s.subrange(lfa + 24, n))
        }
    }
}

/// The whole decoded aggregate `pe` is exactly what decoding the buffer
/// `s` yields: each header's fields decode from its region of `s`, the
/// DOS stub is the verbatim gap between the DOS header and `e_lfanew`,
/// and the remainder is every byte the headers did not consume.
pub open spec fn decodes_to<'pe>(pe: PE<'pe>, s: Seq<u8>) -> bool {
    let n = s.len() as int;
    let lfa = spec_lfanew(s);
    &&& spec_pe_error(s) is None
    &&& 64 <= lfa <= n
    &&& dos_header_matches(pe.dos_header, s)
    &&& pe.dos_stub@ == s.subrange(64, lfa)
    &&& file_header_matches(pe.file_header, s.subrange(lfa, n))
    &&& opt_header_matches(pe.opt_header, s.subrange(lfa + 24, n))
    &&& pe.remaining() == s.subrange(lfa + 24 + spec_opt_header_len(pe.opt_header), n)
}

impl<'pe> PE<'pe> {
    /// The bytes not consumed by header decoding.
    pub open spec fn remaining(self) -> Seq<u8> {
        self.bytes@
    }

    /// Attempts to construct a PE from the given `bytes` slice: the DOS
    /// header from the front, the verbatim DOS stub up to `e_lfanew`,
    /// the COFF file header, then the optional header, each decoder
    /// consuming a prefix of what the previous one left. The first
    /// failure at any stage aborts the whole assembly; no partially
    /// constructed PE is ever returned.
    #[verifier::rlimit(100)]
    pub fn from_bytes(bytes: &'pe [u8]) -> (r: Result<PE<'pe>, PeError>)
        ensures
            match r {
                Ok(pe) => decodes_to(pe, bytes@),
                Err(e) => Some(e) == spec_pe_error(bytes@),
            },
    {
        // Parse the MS-DOS header
        let (dos_header, after_dos) = DosHeader::from_bytes(bytes)?;

        // The file offset of the COFF header, taken from the DOS header
        // but untrusted: it must not point before the end of the DOS
        // header, nor past the end of the buffer.
        let file_header_offset = dos_header.e_lfanew as usize;
        if file_header_offset < 64 {
            return Err(PeError::MalformedOffset);
        }
        let stub_len = file_header_offset - 64;
        if stub_len > after_dos.len() {
            return Err(PeError::BufferTooSmall);
        }

        // Consume the MS-DOS stub (everything until the COFF header)
        let stub_slice = slice_subrange(after_dos, 0, stub_len);
        let after_stub = slice_subrange(after_dos, stub_len, after_dos.len());
        let dos_stub = slice_to_vec(stub_slice);
        proof {
            let n = bytes@.len() as int;
            lemma_subrange_of_subrange(bytes@, 64, n, 0, stub_len as int);
            lemma_subrange_of_subrange(bytes@, 64, n, stub_len as int, n - 64);
        }

        // Read the PE file header
        let (file_header, after_file_header) = match FileHeader::from_bytes(after_stub) {
            Ok(p) => p,
            Err(e) => {
                return Err(e);
            },
        };
        proof {
            let n = bytes@.len() as int;
            let lfa = spec_lfanew(bytes@);
            lemma_subrange_of_subrange(bytes@, lfa, n, 24, n - lfa);
        }

        // Read the PE optional header
        let (opt_header, rest) = match OptionalHeader::from_bytes(after_file_header) {
            Ok(p) => p,
            Err(e) => {
                return Err(e);
            },
        };
        proof {
            let n = bytes@.len() as int;
            let lfa = spec_lfanew(bytes@);
            match opt_header.win_fields {
                WindowsSpecific::PE32(_) => {
                    lemma_subrange_of_subrange(bytes@, lfa + 24, n, 96, n - lfa - 24);
                },
                WindowsSpecific::PE64(_) => {
                    lemma_subrange_of_subrange(bytes@, lfa + 24, n, 112, n - lfa - 24);
                },
            }
        }

        Ok(
            PE {
                bytes: rest,
                dos_header,
                dos_stub,
                file_header,
                opt_header,
            },
        )
    }

    /// Return how much data has not been parsed
    pub fn remaining_bytes(&self) -> (n: usize)
        ensures
            n == self.remaining().len(),
    {
        self.bytes.len()
    }
}

/// No bytes are created, duplicated, or lost by a successful decode: the
/// input's length is exactly the 64-byte DOS header, plus the stub, plus
/// the 24-byte COFF file header, plus the optional header the magic
/// selected, plus the unconsumed remainder.
pub proof fn lemma_round_trip<'pe>(pe: PE<'pe>, s: Seq<u8>)
    requires
        decodes_to(pe, s),
    ensures
        s.len() == 64 + pe.dos_stub@.len() + 24 + spec_opt_header_len(pe.opt_header)
            + pe.remaining().len(),
{
    let n = s.len() as int;
    let lfa = spec_lfanew(s);
    match pe.opt_header.win_fields {
        WindowsSpecific::PE32(_) => {
            assert(s.subrange(lfa + 24, n).len() >= 96);
        },
        WindowsSpecific::PE64(_) => {
            assert(s.subrange(lfa + 24, n).len() >= 112);
        },
    }
}

} // verus!
