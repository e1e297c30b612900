use vstd::prelude::*;
use vstd::slice::slice_subrange;

use crate::error::PeError;
use crate::parsing::spec_le_u16;
use crate::parsing::spec_le_u32;
use crate::machine::spec_machine_type;
use crate::machine::MachineType;
use crate::parsing::read_u16_at;
use crate::parsing::read_u32_at;

verus! {

/// PE file header, also known as the COFF header: 24 bytes on the wire.
#[derive(Debug)]
pub struct FileHeader {
    /// PE Magic
    pub magic: u32,
    /// Identifies the type of target machine.
    pub machine: MachineType,
    /// Indicates the size of the section table
    pub number_of_sections: u16,
    /// The low 32 bits of the number of seconds since Epoch
    pub time_date_stamp: u32,
    /// The file offset of the COFF symbol table, or zero if no COFF
    /// symbol table is present
    pub pointer_to_symbol_table: u32,
    /// The number of entries in the symbol table. This data can be used
    /// to locate the string table, which immediately follows the symbol
    /// table. This value should be zero for an image because COFF
    /// debugging information is deprecated.
    pub number_of_symbols: u32,
    /// Required for executable files but not for object files.
    pub size_of_optional_header: u16,
    /// Characteristics flags
    pub characteristics: u16,
}

/// The raw machine value of a file-header region: the little-endian word
/// at its fixed slot.
pub open spec fn spec_raw_machine(s: Seq<u8>) -> u16 {
    spec_le_u16(s.subrange(4, 6)) as u16
}

/// The one reason a file-header decode of `s` fails, or `None` when it
/// succeeds: too few bytes for the fixed 24, else a machine value outside
/// the closed table.
pub open spec fn spec_file_header_error(s: Seq<u8>) -> Option<PeError> {
    if s.len() < 24 {
        Some(PeError::BufferTooSmall)
    } else if spec_machine_type(spec_raw_machine(s)) is None {
        Some(PeError::InvalidMachineType(spec_raw_machine(s)))
    } else {
        None
    }
}

/// Every field of `h` is the little-endian decoding of its fixed slot in
/// the first 24 bytes of `s`, the machine field through the closed
/// machine-type table.
pub open spec fn file_header_matches(h: FileHeader, s: Seq<u8>) -> bool
    recommends
        s.len() >= 24,
{
    &&& h.magic == spec_le_u32(s.subrange(0, 4))
    &&& Some(h.machine) == spec_machine_type(spec_raw_machine(s))
    &&& h.number_of_sections == spec_le_u16(s.subrange(6, 8))
    &&& h.time_date_stamp == spec_le_u32(s.subrange(8, 12))
    &&& h.pointer_to_symbol_table == spec_le_u32(s.subrange(12, 16))
    &&& h.number_of_symbols == spec_le_u32(s.subrange(16, 20))
    &&& h.size_of_optional_header == spec_le_u16(s.subrange(20, 22))
    &&& h.characteristics == spec_le_u16(s.subrange(22, 24))
}

impl FileHeader {
    /// Decodes the fixed 24-byte COFF file header from the front of
    /// `bytes` and returns it with the remainder. Fails with
    /// `BufferTooSmall` when fewer than 24 bytes remain, and with
    /// `InvalidMachineType` carrying the raw value when the machine word
    /// is outside the closed table; no partial header is ever built.
    pub fn from_bytes<'a>(bytes: &'a [u8]) -> (r: Result<(FileHeader, &'a [u8]), PeError>)
        ensures
            match r {
                Ok(p) => {
                    &&& spec_file_header_error(bytes@) is None
                    &&& file_header_matches(p.0, bytes@)
                    &&& p.1@ == bytes@.subrange(24, bytes@.len() as int)
                },
                Err(e) => Some(e) == spec_file_header_error(bytes@),
            },
    {
        if bytes.len() < 24 {
            return Err(PeError::BufferTooSmall);
        }
        let magic = read_u32_at(bytes, 0);
        let raw_machine = read_u16_at(bytes, 4);
        let number_of_sections = read_u16_at(bytes, 6);
        let time_date_stamp = read_u32_at(bytes, 8);
        let pointer_to_symbol_table = read_u32_at(bytes, 12);
        let number_of_symbols = read_u32_at(bytes, 16);
        let size_of_optional_header = read_u16_at(bytes, 20);
        let characteristics = read_u16_at(bytes, 22);

        let machine = match MachineType::from_u16(raw_machine) {
            Ok(m) => m,
            Err(e) => {
                return Err(e);
            },
        };
        let rest = slice_subrange(bytes, 24, bytes.len());
        Ok((
            FileHeader {
                magic,
                machine,
                number_of_sections,
                time_date_stamp,
                pointer_to_symbol_table,
                number_of_symbols,
                size_of_optional_header,
                characteristics,
            },
            rest,
        ))
    }

    /// The wire size of the COFF file header: a constant 24 bytes.
    pub fn len() -> (n: usize)
        ensures
            n == 24,
    {
        24
    }
}

} // verus!
