use vstd::prelude::*;
use vstd::slice::slice_subrange;

use crate::error::PeError;
use crate::parsing::spec_le_u16;
use crate::parsing::spec_le_u32;
use crate::parsing::spec_le_u64;
use crate::parsing::lemma_subrange_of_subrange;
use crate::parsing::read_u16_at;
use crate::parsing::read_u32_at;
use crate::parsing::read_u64_at;
use crate::parsing::read_u8_at;

verus! {

/// The image-file variant named by the optional header's magic value.
#[derive(Debug, Clone, Copy, PartialEq, Eq, Structural)]
pub enum ImageType {
    /// Magic 0x10B: a normal executable with 32-bit address width.
    Pe32,
    /// Magic 0x107: a ROM image; recognized but not decoded.
    ROM,
    /// Magic 0x20B: an executable with 64-bit address width.
    Pe64,
    /// Any other magic value.
    Unknown,
}

/// The total mapping from a raw optional-header magic to the image type.
pub open spec fn spec_image_type(value: u16) -> ImageType {
    if value == 0x10B {
        ImageType::Pe32
    } else if value == 0x107 {
        ImageType::ROM
    } else if value == 0x20B {
        ImageType::Pe64
    } else {
        ImageType::Unknown
    }
}

impl ImageType {
    /// Maps a raw magic value to its image type; total, never an error.
    pub fn from_u16(value: u16) -> (t: ImageType)
        ensures
            t == spec_image_type(value),
    {
        match value {
            0x10B => ImageType::Pe32,
            0x107 => ImageType::ROM,
            0x20B => ImageType::Pe64,
            _ => ImageType::Unknown,
        }
    }
}

/// Windows-specific optional-header fields with 32-bit address width:
/// 72 bytes on the wire.
#[derive(Debug)]
pub struct Pe32 {
    /// The address that is relative to the image base of the
    /// beginning-of-data section when it is loaded into memory.
    pub base_of_data: u32,
    /// The preferred address of the first byte of image when loaded into
    /// memory; must be a multiple of 64K.
    pub image_base: u32,
    /// The alignment (in bytes) of sections when they are loaded into
    /// memory. It must be greater than or equal to `file_alignment`.
    pub section_alignment: u32,
    /// The alignment factor (in bytes) that is used to align the raw
    /// data of sections in the image file.
    pub file_alignment: u32,
    /// The major version number of the required operating system.
    pub major_os_version: u16,
    /// The minor version number of the required operating system.
    pub minor_os_version: u16,
    /// The major version number of the image.
    pub major_image_version: u16,
    /// The minor version number of the image.
    pub minor_image_version: u16,
    /// The major version number of the subsystem.
    pub major_subsys_version: u16,
    /// The minor version number of the subsystem.
    pub minor_subsys_version: u16,
    /// Reserved, must be zero.
    pub win32_version_value: u32,
    /// The size of the image, including all headers, as the image is
    /// loaded in memory; a multiple of `section_alignment`.
    pub size_of_image: u32,
    /// The combined size of the MS-DOS stub, PE header, and section
    /// headers rounded up to a multiple of `file_alignment`.
    pub size_of_headers: u32,
    /// The image file checksum.
    pub checksum: u32,
    /// The subsystem that is required to run this image.
    pub subsystem: u16,
    /// DLL characteristics flags.
    pub dll_characteristics: u16,
    /// The size of the stack to reserve.
    pub size_of_stack_reserve: u32,
    /// The size of the stack to commit.
    pub size_of_stack_commit: u32,
    /// The size of the heap to reserve.
    pub size_of_heap_reserve: u32,
    /// The size of the heap to commit.
    pub size_of_heap_commit: u32,
    /// Reserved, must be zero.
    pub loader_flags: u32,
    /// The number of data-directory entries in the remainder of the
    /// optional header.
    pub number_of_rva_and_sizes: u32,
}

/// Windows-specific optional-header fields with 64-bit address width:
/// 88 bytes on the wire. The four stack/heap size fields and the image
/// base widen to 64 bits; there is no `base_of_data`.
#[derive(Debug)]
pub struct Pe64 {
    /// The preferred address of the first byte of image when loaded into
    /// memory; must be a multiple of 64K.
    pub image_base: u64,
    /// The alignment (in bytes) of sections when they are loaded into
    /// memory. It must be greater than or equal to `file_alignment`.
    pub section_alignment: u32,
    /// The alignment factor (in bytes) that is used to align the raw
    /// data of sections in the image file.
    pub file_alignment: u32,
    /// The major version number of the required operating system.
    pub major_os_version: u16,
    /// The minor version number of the required operating system.
    pub minor_os_version: u16,
    /// The major version number of the image.
    pub major_image_version: u16,
    /// The minor version number of the image.
    pub minor_image_version: u16,
    /// The major version number of the subsystem.
    pub major_subsys_version: u16,
    /// The minor version number of the subsystem.
    pub minor_subsys_version: u16,
    /// Reserved, must be zero.
    pub win32_version_value: u32,
    /// The size of the image, including all headers, as the image is
    /// loaded in memory; a multiple of `section_alignment`.
    pub size_of_image: u32,
    /// The combined size of the MS-DOS stub, PE header, and section
    /// headers rounded up to a multiple of `file_alignment`.
    pub size_of_headers: u32,
    /// The image file checksum.
    pub checksum: u32,
    /// The subsystem that is required to run this image.
    pub subsystem: u16,
    /// DLL characteristics flags.
    pub dll_characteristics: u16,
    /// The size of the stack to reserve.
    pub size_of_stack_reserve: u64,
    /// The size of the stack to commit.
    pub size_of_stack_commit: u64,
    /// The size of the heap to reserve.
    pub size_of_heap_reserve: u64,
    /// The size of the heap to commit.
    pub size_of_heap_commit: u64,
    /// Reserved, must be zero.
    pub loader_flags: u32,
    /// The number of data-directory entries in the remainder of the
    /// optional header.
    pub number_of_rva_and_sizes: u32,
}

/// The tagged union over the two Windows-specific tail layouts; which one
/// is present is selected by the optional header's magic, never guessed.
#[derive(Debug)]
pub enum WindowsSpecific {
    PE32(Pe32),
    PE64(Pe64),
}

/// Every field of `p` is the little-endian decoding of its fixed slot in
/// the first 72 bytes of `s`.
pub open spec fn pe32_matches(p: Pe32, s: Seq<u8>) -> bool
    recommends
        s.len() >= 72,
{
    &&& p.base_of_data == spec_le_u32(s.subrange(0, 4))
    &&& p.image_base == spec_le_u32(s.subrange(4, 8))
    &&& p.section_alignment == spec_le_u32(s.subrange(8, 12))
    &&& p.file_alignment == spec_le_u32(s.subrange(12, 16))
    &&& p.major_os_version == spec_le_u16(s.subrange(16, 18))
    &&& p.minor_os_version == spec_le_u16(s.subrange(18, 20))
    &&& p.major_image_version == spec_le_u16(s.subrange(20, 22))
    &&& p.minor_image_version == spec_le_u16(s.subrange(22, 24))
    &&& p.major_subsys_version == spec_le_u16(s.subrange(24, 26))
    &&& p.minor_subsys_version == spec_le_u16(s.subrange(26, 28))
    &&& p.win32_version_value == spec_le_u32(s.subrange(28, 32))
    &&& p.size_of_image == spec_le_u32(s.subrange(32, 36))
    &&& p.size_of_headers == spec_le_u32(s.subrange(36, 40))
    &&& p.checksum == spec_le_u32(s.subrange(40, 44))
    &&& p.subsystem == spec_le_u16(s.subrange(44, 46))
    &&& p.dll_characteristics == spec_le_u16(s.subrange(46, 48))
    &&& p.size_of_stack_reserve == spec_le_u32(s.subrange(48, 52))
    &&& p.size_of_stack_commit == spec_le_u32(s.subrange(52, 56))
    &&& p.size_of_heap_reserve == spec_le_u32(s.subrange(56, 60))
    &&& p.size_of_heap_commit == spec_le_u32(s.subrange(60, 64))
    &&& p.loader_flags == spec_le_u32(s.subrange(64, 68))
    &&& p.number_of_rva_and_sizes == spec_le_u32(s.subrange(68, 72))
}

/// Every field of `p` is the little-endian decoding of its fixed slot in
/// the first 88 bytes of `s`.
pub open spec fn pe64_matches(p: Pe64, s: Seq<u8>) -> bool
    recommends
        s.len() >= 88,
{
    &&& p.image_base == spec_le_u64(s.subrange(0, 8))
    &&& p.section_alignment == spec_le_u32(s.subrange(8, 12))
    &&& p.file_alignment == spec_le_u32(s.subrange(12, 16))
    &&& p.major_os_version == spec_le_u16(s.subrange(16, 18))
    &&& p.minor_os_version == spec_le_u16(s.subrange(18, 20))
    &&& p.major_image_version == spec_le_u16(s.subrange(20, 22))
    &&& p.minor_image_version == spec_le_u16(s.subrange(22, 24))
    &&& p.major_subsys_version == spec_le_u16(s.subrange(24, 26))
    &&& p.minor_subsys_version == spec_le_u16(s.subrange(26, 28))
    &&& p.win32_version_value == spec_le_u32(s.subrange(28, 32))
    &&& p.size_of_image == spec_le_u32(s.subrange(32, 36))
    &&& p.size_of_headers == spec_le_u32(s.subrange(36, 40))
    &&& p.checksum == spec_le_u32(s.subrange(40, 44))
    &&& p.subsystem == spec_le_u16(s.subrange(44, 46))
    &&& p.dll_characteristics == spec_le_u16(s.subrange(46, 48))
    &&& p.size_of_stack_reserve == spec_le_u64(s.subrange(48, 56))
    &&& p.size_of_stack_commit == spec_le_u64(s.subrange(56, 64))
    &&& p.size_of_heap_reserve == spec_le_u64(s.subrange(64, 72))
    &&& p.size_of_heap_commit == spec_le_u64(s.subrange(72, 80))
    &&& p.loader_flags == spec_le_u32(s.subrange(80, 84))
    &&& p.number_of_rva_and_sizes == spec_le_u32(s.subrange(84, 88))
}

impl Pe32 {
    /// Decodes the 72-byte 32-bit Windows-specific tail from the front of
    /// `bytes` and returns it with the remainder, or `BufferTooSmall`.
    pub fn from_bytes<'a>(bytes: &'a [u8]) -> (r: Result<(Pe32, &'a [u8]), PeError>)
        ensures
            match r {
                Ok(p) => {
                    &&& bytes@.len() >= 72
                    &&& pe32_matches(p.0, bytes@)
                    &&& p.1@ == bytes@.subrange(72, bytes@.len() as int)
                },
                Err(e) => {
                    &&& bytes@.len() < 72
                    &&& e == PeError::BufferTooSmall
                },
            },
    {
        if bytes.len() < 72 {
            return Err(PeError::BufferTooSmall);
        }
        let base_of_data = read_u32_at(bytes, 0);
        let image_base = read_u32_at(bytes, 4);
        let section_alignment = read_u32_at(bytes, 8);
        let file_alignment = read_u32_at(bytes, 12);
        let major_os_version = read_u16_at(bytes, 16);
        let minor_os_version = read_u16_at(bytes, 18);
        let major_image_version = read_u16_at(bytes, 20);
        let minor_image_version = read_u16_at(bytes, 22);
        let major_subsys_version = read_u16_at(bytes, 24);
        let minor_subsys_version = read_u16_at(bytes, 26);
        let win32_version_value = read_u32_at(bytes, 28);
        let size_of_image = read_u32_at(bytes, 32);
        let size_of_headers = read_u32_at(bytes, 36);
        let checksum = read_u32_at(bytes, 40);
        let subsystem = read_u16_at(bytes, 44);
        let dll_characteristics = read_u16_at(bytes, 46);
        let size_of_stack_reserve = read_u32_at(bytes, 48);
        let size_of_stack_commit = read_u32_at(bytes, 52);
        let size_of_heap_reserve = read_u32_at(bytes, 56);
        let size_of_heap_commit = read_u32_at(bytes, 60);
        let loader_flags = read_u32_at(bytes, 64);
        let number_of_rva_and_sizes = read_u32_at(bytes, 68);
        let rest = slice_subrange(bytes, 72, bytes.len());
        Ok((
            Pe32 {
                base_of_data,
                image_base,
                section_alignment,
                file_alignment,
                major_os_version,
                minor_os_version,
                major_image_version,
                minor_image_version,
                major_subsys_version,
                minor_subsys_version,
                win32_version_value,
                size_of_image,
                size_of_headers,
                checksum,
                subsystem,
                dll_characteristics,
                size_of_stack_reserve,
                size_of_stack_commit,
                size_of_heap_reserve,
                size_of_heap_commit,
                loader_flags,
                number_of_rva_and_sizes,
            },
            rest,
        ))
    }
}

impl Pe64 {
    /// Decodes the 88-byte 64-bit Windows-specific tail from the front of
    /// `bytes` and returns it with the remainder, or `BufferTooSmall`.
    pub fn from_bytes<'a>(bytes: &'a [u8]) -> (r: Result<(Pe64, &'a [u8]), PeError>)
        ensures
            match r {
                Ok(p) => {
                    &&& bytes@.len() >= 88
                    &&& pe64_matches(p.0, bytes@)
                    &&& p.1@ == bytes@.subrange(88, bytes@.len() as int)
                },
                Err(e) => {
                    &&& bytes@.len() < 88
                    &&& e == PeError::BufferTooSmall
                },
            },
    {
        if bytes.len() < 88 {
            return Err(PeError::BufferTooSmall);
        }
        let image_base = read_u64_at(bytes, 0);
        let section_alignment = read_u32_at(bytes, 8);
        let file_alignment = read_u32_at(bytes, 12);
        let major_os_version = read_u16_at(bytes, 16);
        let minor_os_version = read_u16_at(bytes, 18);
        let major_image_version = read_u16_at(bytes, 20);
        let minor_image_version = read_u16_at(bytes, 22);
        let major_subsys_version = read_u16_at(bytes, 24);
        let minor_subsys_version = read_u16_at(bytes, 26);
        let win32_version_value = read_u32_at(bytes, 28);
        let size_of_image = read_u32_at(bytes, 32);
        let size_of_headers = read_u32_at(bytes, 36);
        let checksum = read_u32_at(bytes, 40);
        let subsystem = read_u16_at(bytes, 44);
        let dll_characteristics = read_u16_at(bytes, 46);
        let size_of_stack_reserve = read_u64_at(bytes, 48);
        let size_of_stack_commit = read_u64_at(bytes, 56);
        let size_of_heap_reserve = read_u64_at(bytes, 64);
        let size_of_heap_commit = read_u64_at(bytes, 72);
        let loader_flags = read_u32_at(bytes, 80);
        let number_of_rva_and_sizes = read_u32_at(bytes, 84);
        let rest = slice_subrange(bytes, 88, bytes.len());
        Ok((
            Pe64 {
                image_base,
                section_alignment,
                file_alignment,
                major_os_version,
                minor_os_version,
                major_image_version,
                minor_image_version,
                major_subsys_version,
                minor_subsys_version,
                win32_version_value,
                size_of_image,
                size_of_headers,
                checksum,
                subsystem,
                dll_characteristics,
                size_of_stack_reserve,
                size_of_stack_commit,
                size_of_heap_reserve,
                size_of_heap_commit,
                loader_flags,
                number_of_rva_and_sizes,
            },
            rest,
        ))
    }
}

impl WindowsSpecific {
    /// Dispatches on the already-decoded image type: magic `Pe32` decodes
    /// the 32-bit tail and only that tail, magic `Pe64` the 64-bit tail;
    /// ROM and unknown magics fail with `Unimplemented`, never with a
    /// default variant.
    pub fn from_bytes<'a>(magic: ImageType, bytes: &'a [u8]) -> (r: Result<
        (WindowsSpecific, &'a [u8]),
        PeError,
    >)
        ensures
            match r {
                Ok(p) => match p.0 {
                    WindowsSpecific::PE32(w) => {
                        &&& magic == ImageType::Pe32
                        &&& bytes@.len() >= 72
                        &&& pe32_matches(w, bytes@)
                        &&& p.1@ == bytes@.subrange(72, bytes@.len() as int)
                    },
                    WindowsSpecific::PE64(w) => {
                        &&& magic == ImageType::Pe64
                        &&& bytes@.len() >= 88
                        &&& pe64_matches(w, bytes@)
                        &&& p.1@ == bytes@.subrange(88, bytes@.len() as int)
                    },
                },
                Err(e) => match magic {
                    ImageType::Pe32 => {
                        &&& bytes@.len() < 72
                        &&& e == PeError::BufferTooSmall
                    },
                    ImageType::Pe64 => {
                        &&& bytes@.len() < 88
                        &&& e == PeError::BufferTooSmall
                    },
                    ImageType::ROM => e == PeError::Unimplemented,
                    ImageType::Unknown => e == PeError::Unimplemented,
                },
            },
    {
        match magic {
            ImageType::Pe32 => {
                let (pe32, rest) = Pe32::from_bytes(bytes)?;
                Ok((WindowsSpecific::PE32(pe32), rest))
            },
            ImageType::Pe64 => {
                let (pe64, rest) = Pe64::from_bytes(bytes)?;
                Ok((WindowsSpecific::PE64(pe64), rest))
            },
            ImageType::ROM => Err(PeError::Unimplemented),
            ImageType::Unknown => Err(PeError::Unimplemented),
        }
    }
}

/// PE optional header: a fixed 24-byte common prefix whose magic value
/// selects the Windows-specific tail that follows it.
#[derive(Debug)]
pub struct OptionalHeader {
    /// Defines the type of the image file. The most common is 0x10B,
    /// a normal 32-bit executable file.
    pub magic: ImageType,
    /// The linker major version number
    pub major_linker_version: u8,
    /// The linker minor version number
    pub minor_linker_version: u8,
    /// The size of the code (text) section, or the sum of all code
    /// sections if there are multiple sections.
    pub size_of_code: u32,
    /// The size of the initialized data section, or the sum of all such
    /// sections if there are multiple data sections.
    pub size_of_initialized_data: u32,
    /// The size of the uninitialized data section (BSS), or the sum of
    /// all such sections if there are multiple BSS sections.
    pub size_of_uninitialized_data: u32,
    /// The address of the entry point relative to the image base when
    /// the executable file is loaded into memory.
    pub addr_of_entry_point: u32,
    /// The address that is relative to the image base of the
    /// beginning-of-code section when it is loaded into memory.
    pub base_of_code: u32,
    /// Windows specific fields
    pub win_fields: WindowsSpecific,
}

/// The raw magic word of an optional-header region: the little-endian
/// word at its front.
pub open spec fn spec_opt_magic(s: Seq<u8>) -> u16 {
    spec_le_u16(s.subrange(0, 2)) as u16
}

/// The wire size of the whole optional header: the 24-byte common prefix
/// plus the tail its variant selects.
pub open spec fn spec_opt_header_len(h: OptionalHeader) -> int {
    match h.win_fields {
        WindowsSpecific::PE32(_) => 96,
        WindowsSpecific::PE64(_) => 112,
    }
}

/// The one reason an optional-header decode of `s` fails, or `None` when
/// it succeeds: too few bytes for the common prefix, a magic outside the
/// two decodable variants, or too few bytes for the selected tail.
pub open spec fn spec_opt_header_error(s: Seq<u8>) -> Option<PeError> {
    if s.len() < 24 {
        Some(PeError::BufferTooSmall)
    } else if spec_opt_magic(s) == 0x10B {
        if s.len() < 96 {
            Some(PeError::BufferTooSmall)
        } else {
            None
        }
    } else if spec_opt_magic(s) == 0x20B {
        if s.len() < 112 {
            Some(PeError::BufferTooSmall)
        } else {
            None
        }
    } else {
        Some(PeError::Unimplemented)
    }
}

/// Every common field of `h` is the little-endian decoding of its fixed
/// slot in `s`, and the tail variant is the one the magic selects, its
/// fields decoded from the bytes that follow the common prefix.
pub open spec fn opt_header_matches(h: OptionalHeader, s: Seq<u8>) -> bool
    recommends
        s.len() >= 24,
{
    &&& h.magic == spec_image_type(spec_opt_magic(s))
    &&& h.major_linker_version == s[2]
    &&& h.minor_linker_version == s[3]
    &&& h.size_of_code == spec_le_u32(s.subrange(4, 8))
    &&& h.size_of_initialized_data == spec_le_u32(s.subrange(8, 12))
    &&& h.size_of_uninitialized_data == spec_le_u32(s.subrange(12, 16))
    &&& h.addr_of_entry_point == spec_le_u32(s.subrange(16, 20))
    &&& h.base_of_code == spec_le_u32(s.subrange(20, 24))
    &&& match h.win_fields {
        WindowsSpecific::PE32(p) => {
            &&& spec_opt_magic(s) == 0x10B
            &&& s.len() >= 96
            &&& pe32_matches(p, s.subrange(24, s.len() as int))
        },
        WindowsSpecific::PE64(p) => {
            &&& spec_opt_magic(s) == 0x20B
            &&& s.len() >= 112
            &&& pe64_matches(p, s.subrange(24, s.len() as int))
        },
    }
}

impl OptionalHeader {
    /// Decodes the optional header from the front of `bytes`: the 24-byte
    /// common prefix, then the tail selected by the magic value read from
    /// the stream, and returns it with the remainder. Fails with
    /// `BufferTooSmall` when the prefix or the selected tail is cut
    /// short, and with `Unimplemented` when the magic names the ROM
    /// variant or no known variant at all.
    pub fn from_bytes<'a>(bytes: &'a [u8]) -> (r: Result<(OptionalHeader, &'a [u8]), PeError>)
        ensures
            match r {
                Ok(p) => {
                    &&& spec_opt_header_error(bytes@) is None
                    &&& opt_header_matches(p.0, bytes@)
                    &&& p.1@ == bytes@.subrange(spec_opt_header_len(p.0), bytes@.len() as int)
                },
                Err(e) => Some(e) == spec_opt_header_error(bytes@),
            },
    {
        if bytes.len() < 24 {
            return Err(PeError::BufferTooSmall);
        }
        let raw_magic = read_u16_at(bytes, 0);
        let magic = ImageType::from_u16(raw_magic);
        let major_linker_version = read_u8_at(bytes, 2);
        let minor_linker_version = read_u8_at(bytes, 3);
        let size_of_code = read_u32_at(bytes, 4);
        let size_of_initialized_data = read_u32_at(bytes, 8);
        let size_of_uninitialized_data = read_u32_at(bytes, 12);
        let addr_of_entry_point = read_u32_at(bytes, 16);
        let base_of_code = read_u32_at(bytes, 20);
        let tail = slice_subrange(bytes, 24, bytes.len());
        let (win_fields, rest) = WindowsSpecific::from_bytes(magic, tail)?;
        proof {
            match win_fields {
                WindowsSpecific::PE32(_) => {
                    lemma_subrange_of_subrange(bytes@, 24, bytes@.len() as int, 72, bytes@.len() - 24);
                },
                WindowsSpecific::PE64(_) => {
                    lemma_subrange_of_subrange(bytes@, 24, bytes@.len() as int, 88, bytes@.len() - 24);
                },
            }
        }
        Ok((
            OptionalHeader {
                magic,
                major_linker_version,
                minor_linker_version,
                size_of_code,
                size_of_initialized_data,
                size_of_uninitialized_data,
                addr_of_entry_point,
                base_of_code,
                win_fields,
            },
            rest,
        ))
    }
}

/// Variant dispatch is exact: a decoded optional header whose magic is
/// 0x10B always carries the 32-bit tail and never the 64-bit one, and a
/// magic of 0x20B always carries the 64-bit tail.
pub proof fn lemma_variant_dispatch(h: OptionalHeader, s: Seq<u8>)
    requires
        opt_header_matches(h, s),
    ensures
        spec_opt_magic(s) == 0x10B ==> h.win_fields is PE32,
        spec_opt_magic(s) == 0x20B ==> h.win_fields is PE64,
{
}

} // verus!
