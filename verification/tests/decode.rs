use pe_parser::characteristics::CharacteristicsFlag;
use pe_parser::dos::DosHeader;
use pe_parser::error::PeError;
use pe_parser::file_header::FileHeader;
use pe_parser::machine::MachineType;
use pe_parser::opt_header::ImageType;
use pe_parser::opt_header::OptionalHeader;
use pe_parser::opt_header::Pe32;
use pe_parser::opt_header::Pe64;
use pe_parser::opt_header::WindowsSpecific;
use pe_parser::parsing::take_u16;
use pe_parser::parsing::take_u32;
use pe_parser::parsing::take_u64;
use pe_parser::parsing::take_u8;
use pe_parser::PE;

fn push_u16(buf: &mut Vec<u8>, v: u16) {
    buf.extend_from_slice(&v.to_le_bytes());
}

fn push_u32(buf: &mut Vec<u8>, v: u32) {
    buf.extend_from_slice(&v.to_le_bytes());
}

fn push_u64(buf: &mut Vec<u8>, v: u64) {
    buf.extend_from_slice(&v.to_le_bytes());
}

/// A 64-byte DOS header with the given magic and `e_lfanew`, every other
/// field a distinct small value.
fn dos_header_bytes(e_magic: u16, e_lfanew: u32) -> Vec<u8> {
    let mut buf = Vec::new();
    push_u16(&mut buf, e_magic);
    for i in 0..13u16 {
        // e_cblp .. e_ovno
        push_u16(&mut buf, 0x0100 + i);
    }
    for i in 0..4u16 {
        // e_res
        push_u16(&mut buf, 0x0200 + i);
    }
    push_u16(&mut buf, 0x0301); // e_oemid
    push_u16(&mut buf, 0x0302); // e_oeminfo
    for i in 0..10u16 {
        // e_res2
        push_u16(&mut buf, 0x0400 + i);
    }
    push_u32(&mut buf, e_lfanew);
    assert_eq!(buf.len(), 64);
    buf
}

/// A 24-byte COFF file header with the given machine value.
fn file_header_bytes(machine: u16) -> Vec<u8> {
    let mut buf = Vec::new();
    push_u32(&mut buf, 0x0000_4550); // "PE\0\0"
    push_u16(&mut buf, machine);
    push_u16(&mut buf, 3); // number_of_sections
    push_u32(&mut buf, 0x615A_0000); // time_date_stamp
    push_u32(&mut buf, 0); // pointer_to_symbol_table
    push_u32(&mut buf, 0); // number_of_symbols
    push_u16(&mut buf, 0x00F0); // size_of_optional_header
    push_u16(&mut buf, 0x0022); // characteristics
    assert_eq!(buf.len(), 24);
    buf
}

/// The 24-byte optional-header common prefix with the given magic.
fn opt_common_bytes(magic: u16, entry_point: u32) -> Vec<u8> {
    let mut buf = Vec::new();
    push_u16(&mut buf, magic);
    buf.push(14); // major_linker_version
    buf.push(29); // minor_linker_version
    push_u32(&mut buf, 0x0002_2000); // size_of_code
    push_u32(&mut buf, 0x0001_1000); // size_of_initialized_data
    push_u32(&mut buf, 0x0000_0400); // size_of_uninitialized_data
    push_u32(&mut buf, entry_point); // addr_of_entry_point
    push_u32(&mut buf, 0x0000_1000); // base_of_code
    assert_eq!(buf.len(), 24);
    buf
}

/// The 88-byte 64-bit Windows-specific tail with the given image base.
fn pe64_tail_bytes(image_base: u64) -> Vec<u8> {
    let mut buf = Vec::new();
    push_u64(&mut buf, image_base);
    push_u32(&mut buf, 0x1000); // section_alignment
    push_u32(&mut buf, 0x200); // file_alignment
    push_u16(&mut buf, 10); // major_os_version
    push_u16(&mut buf, 0); // minor_os_version
    push_u16(&mut buf, 10); // major_image_version
    push_u16(&mut buf, 1); // minor_image_version
    push_u16(&mut buf, 6); // major_subsys_version
    push_u16(&mut buf, 2); // minor_subsys_version
    push_u32(&mut buf, 0); // win32_version_value
    push_u32(&mut buf, 0x0004_3000); // size_of_image
    push_u32(&mut buf, 0x400); // size_of_headers
    push_u32(&mut buf, 0xDEAD_0001); // checksum
    push_u16(&mut buf, 2); // subsystem
    push_u16(&mut buf, 0xC160); // dll_characteristics
    push_u64(&mut buf, 0x0008_0000); // size_of_stack_reserve
    push_u64(&mut buf, 0x0001_1000); // size_of_stack_commit
    push_u64(&mut buf, 0x0010_0000); // size_of_heap_reserve
    push_u64(&mut buf, 0x1000); // size_of_heap_commit
    push_u32(&mut buf, 0); // loader_flags
    push_u32(&mut buf, 16); // number_of_rva_and_sizes
    assert_eq!(buf.len(), 88);
    buf
}

/// The 72-byte 32-bit Windows-specific tail with the given image base.
fn pe32_tail_bytes(image_base: u32) -> Vec<u8> {
    let mut buf = Vec::new();
    push_u32(&mut buf, 0x2000); // base_of_data
    push_u32(&mut buf, image_base);
    push_u32(&mut buf, 0x1000); // section_alignment
    push_u32(&mut buf, 0x200); // file_alignment
    push_u16(&mut buf, 6); // major_os_version
    push_u16(&mut buf, 1); // minor_os_version
    push_u16(&mut buf, 5); // major_image_version
    push_u16(&mut buf, 3); // minor_image_version
    push_u16(&mut buf, 6); // major_subsys_version
    push_u16(&mut buf, 0); // minor_subsys_version
    push_u32(&mut buf, 0); // win32_version_value
    push_u32(&mut buf, 0x0002_3000); // size_of_image
    push_u32(&mut buf, 0x400); // size_of_headers
    push_u32(&mut buf, 0xBEEF_0002); // checksum
    push_u16(&mut buf, 3); // subsystem
    push_u16(&mut buf, 0x8140); // dll_characteristics
    push_u32(&mut buf, 0x0010_0000); // size_of_stack_reserve
    push_u32(&mut buf, 0x1000); // size_of_stack_commit
    push_u32(&mut buf, 0x0010_0000); // size_of_heap_reserve
    push_u32(&mut buf, 0x1000); // size_of_heap_commit
    push_u32(&mut buf, 0); // loader_flags
    push_u32(&mut buf, 16); // number_of_rva_and_sizes
    assert_eq!(buf.len(), 72);
    buf
}

/// A complete 64-bit image laid out like a standard notepad binary:
/// `e_lfanew` 0xF8, a DOS stub of 184 bytes, then the COFF and optional
/// headers, then `trailing` extra bytes.
fn pe64_image(trailing: usize) -> Vec<u8> {
    let mut data = dos_header_bytes(0x5A4D, 0xF8);
    for i in 0..184usize {
        data.push((i % 251) as u8); // DOS stub
    }
    data.extend_from_slice(&file_header_bytes(0x8664));
    data.extend_from_slice(&opt_common_bytes(0x20B, 0x0002_5A30));
    data.extend_from_slice(&pe64_tail_bytes(0x0000_0001_4000_0000));
    for _ in 0..trailing {
        data.push(0xAB);
    }
    data
}

/// A complete 32-bit image with no DOS stub at all (`e_lfanew` == 64).
fn pe32_image(trailing: usize) -> Vec<u8> {
    let mut data = dos_header_bytes(0x5A4D, 64);
    data.extend_from_slice(&file_header_bytes(0x014C));
    data.extend_from_slice(&opt_common_bytes(0x10B, 0x1234));
    data.extend_from_slice(&pe32_tail_bytes(0x0040_0000));
    for _ in 0..trailing {
        data.push(0xCD);
    }
    data
}

#[test]
fn it_works() {
    let result = 2 + 2;
    assert_eq!(result, 4);
}

#[test]
fn take_u8_widths() {
    assert!(matches!(take_u8(&[]), Err(PeError::BufferTooSmall)));
    let (v, rest) = take_u8(&[0x7F]).unwrap();
    assert_eq!(v, 0x7F);
    assert_eq!(rest.len(), 0);
    let (v, rest) = take_u8(&[0x01, 0x02, 0x03]).unwrap();
    assert_eq!(v, 0x01);
    assert_eq!(rest, &[0x02, 0x03]);
}

#[test]
fn take_u16_widths() {
    assert!(matches!(take_u16(&[0x4D]), Err(PeError::BufferTooSmall)));
    let (v, rest) = take_u16(&[0x4D, 0x5A]).unwrap();
    assert_eq!(v, 0x5A4D);
    assert_eq!(rest.len(), 0);
    let (v, rest) = take_u16(&[0x4D, 0x5A, 0x99]).unwrap();
    assert_eq!(v, 0x5A4D);
    assert_eq!(rest, &[0x99]);
}

#[test]
fn take_u32_widths() {
    assert!(matches!(take_u32(&[0x50, 0x45, 0x00]), Err(PeError::BufferTooSmall)));
    let (v, rest) = take_u32(&[0x50, 0x45, 0x00, 0x00]).unwrap();
    assert_eq!(v, 0x0000_4550);
    assert_eq!(rest.len(), 0);
    let (v, rest) = take_u32(&[0x78, 0x56, 0x34, 0x12, 0xFF, 0xEE]).unwrap();
    assert_eq!(v, 0x1234_5678);
    assert_eq!(rest, &[0xFF, 0xEE]);
}

#[test]
fn take_u64_widths() {
    assert!(matches!(
        take_u64(&[1, 2, 3, 4, 5, 6, 7]),
        Err(PeError::BufferTooSmall)
    ));
    let (v, rest) = take_u64(&[0xEF, 0xCD, 0xAB, 0x89, 0x67, 0x45, 0x23, 0x01]).unwrap();
    assert_eq!(v, 0x0123_4567_89AB_CDEF);
    assert_eq!(rest.len(), 0);
    let (v, rest) = take_u64(&[0, 0, 0, 0x40, 1, 0, 0, 0, 0x77]).unwrap();
    assert_eq!(v, 0x0000_0001_4000_0000);
    assert_eq!(rest, &[0x77]);
}

#[test]
fn machine_type_totality() {
    let table: Vec<(u16, MachineType)> = vec![
        (0x0, MachineType::Unknown),
        (0x1D3, MachineType::Am33),
        (0x8664, MachineType::Amd64),
        (0x1C0, MachineType::Arm),
        (0xAA64, MachineType::Arm64),
        (0x1C4, MachineType::ArmNt),
        (0xEBC, MachineType::Ebc),
        (0x14C, MachineType::I386),
        (0x200, MachineType::Ia64),
        (0x6232, MachineType::LoongArch32),
        (0x6264, MachineType::LoongArch64),
        (0x9041, MachineType::M32R),
        (0x266, MachineType::Mips16),
        (0x366, MachineType::MipsFpu),
        (0x466, MachineType::MipsFpu16),
        (0x1F0, MachineType::PowerPc),
        (0x1F1, MachineType::PowerPcFp),
        (0x166, MachineType::R4000),
        (0x5032, MachineType::RiscV32),
        (0x5064, MachineType::RiscV64),
        (0x5128, MachineType::RiscV128),
        (0x1A2, MachineType::Sh3),
        (0x1A3, MachineType::Sh3Dsp),
        (0x1A6, MachineType::Sh4),
        (0x1A8, MachineType::Sh5),
        (0x1C2, MachineType::Thumb),
        (0x169, MachineType::WceMipsV2),
    ];
    for raw in 0..=0xFFFFu16 {
        let expected = table.iter().find(|(v, _)| *v == raw);
        match (MachineType::from_u16(raw), expected) {
            (Ok(m), Some((_, want))) => assert_eq!(m, *want),
            (Err(PeError::InvalidMachineType(v)), None) => assert_eq!(v, raw),
            (got, _) => panic!("value {:#x} decoded to {:?}", raw, got),
        }
    }
}

#[test]
fn characteristics_empty_mask() {
    assert_eq!(CharacteristicsFlag::to_vec(0x0000), Vec::new());
}

#[test]
fn characteristics_full_mask() {
    let all = CharacteristicsFlag::to_vec(0xFFFF);
    assert_eq!(
        all,
        vec![
            CharacteristicsFlag::RelocsStripped,
            CharacteristicsFlag::ExecutableImage,
            CharacteristicsFlag::LineNumsStripped,
            CharacteristicsFlag::LocalSymsStripped,
            CharacteristicsFlag::AggressiveWsTrim,
            CharacteristicsFlag::LargeAddressAware,
            CharacteristicsFlag::Reserved,
            CharacteristicsFlag::BytesReversedLo,
            CharacteristicsFlag::Machine32Bit,
            CharacteristicsFlag::DebugStripped,
            CharacteristicsFlag::RemovableRunFromSwap,
            CharacteristicsFlag::NetRunFromSwap,
            CharacteristicsFlag::System,
            CharacteristicsFlag::Dll,
            CharacteristicsFlag::UpSystemOnly,
            CharacteristicsFlag::BytesReversedHi,
        ]
    );
}

#[test]
fn characteristics_deterministic_and_ordered() {
    let first = CharacteristicsFlag::to_vec(0x2102);
    let second = CharacteristicsFlag::to_vec(0x2102);
    assert_eq!(first, second);
    assert_eq!(
        first,
        vec![
            CharacteristicsFlag::ExecutableImage,
            CharacteristicsFlag::Machine32Bit,
            CharacteristicsFlag::Dll,
        ]
    );
}

#[test]
fn image_type_mapping() {
    assert_eq!(ImageType::from_u16(0x10B), ImageType::Pe32);
    assert_eq!(ImageType::from_u16(0x107), ImageType::ROM);
    assert_eq!(ImageType::from_u16(0x20B), ImageType::Pe64);
    assert_eq!(ImageType::from_u16(0x0), ImageType::Unknown);
    assert_eq!(ImageType::from_u16(0x20C), ImageType::Unknown);
}

#[test]
fn dos_header_fields() {
    let mut buf = dos_header_bytes(0x5A4D, 0x0000_00F8);
    buf.push(0xEE); // one trailing byte
    let (h, rest) = DosHeader::from_bytes(&buf).unwrap();
    assert_eq!(h.e_magic, 0x5A4D);
    assert_eq!(h.e_cblp, 0x0100);
    assert_eq!(h.e_cp, 0x0101);
    assert_eq!(h.e_crlc, 0x0102);
    assert_eq!(h.e_cparhdr, 0x0103);
    assert_eq!(h.e_minalloc, 0x0104);
    assert_eq!(h.e_maxalloc, 0x0105);
    assert_eq!(h.e_ss, 0x0106);
    assert_eq!(h.e_sp, 0x0107);
    assert_eq!(h.e_csum, 0x0108);
    assert_eq!(h.e_ip, 0x0109);
    assert_eq!(h.e_cs, 0x010A);
    assert_eq!(h.e_lfarlc, 0x010B);
    assert_eq!(h.e_ovno, 0x010C);
    assert_eq!(h.e_res, vec![0x0200, 0x0201, 0x0202, 0x0203]);
    assert_eq!(h.e_oemid, 0x0301);
    assert_eq!(h.e_oeminfo, 0x0302);
    assert_eq!(
        h.e_res2,
        vec![0x0400, 0x0401, 0x0402, 0x0403, 0x0404, 0x0405, 0x0406, 0x0407, 0x0408, 0x0409]
    );
    assert_eq!(h.e_lfanew, 0xF8);
    assert_eq!(rest, &[0xEE]);
    assert_eq!(DosHeader::len(), 64);
}

#[test]
fn dos_header_exact_width() {
    let buf = dos_header_bytes(0x5A4D, 64);
    let (_, rest) = DosHeader::from_bytes(&buf).unwrap();
    assert_eq!(rest.len(), 0);
}

#[test]
fn dos_header_truncated() {
    let image = pe64_image(0);
    let r = DosHeader::from_bytes(&image[..63]);
    assert!(matches!(r, Err(PeError::BufferTooSmall)));
}

#[test]
fn file_header_fields() {
    let buf = file_header_bytes(0x8664);
    let (h, rest) = FileHeader::from_bytes(&buf).unwrap();
    assert_eq!(h.magic, 0x4550);
    assert_eq!(h.machine, MachineType::Amd64);
    assert_eq!(h.number_of_sections, 3);
    assert_eq!(h.time_date_stamp, 0x615A_0000);
    assert_eq!(h.pointer_to_symbol_table, 0);
    assert_eq!(h.number_of_symbols, 0);
    assert_eq!(h.size_of_optional_header, 0xF0);
    assert_eq!(h.characteristics, 0x0022);
    assert_eq!(rest.len(), 0);
    assert_eq!(FileHeader::len(), 24);
}

#[test]
fn file_header_invalid_machine() {
    let buf = file_header_bytes(0x9999);
    let r = FileHeader::from_bytes(&buf);
    assert!(matches!(r, Err(PeError::InvalidMachineType(0x9999))));
}

#[test]
fn file_header_truncated() {
    let buf = file_header_bytes(0x8664);
    let r = FileHeader::from_bytes(&buf[..23]);
    assert!(matches!(r, Err(PeError::BufferTooSmall)));
}

#[test]
fn opt_header_pe64_dispatch() {
    let mut buf = opt_common_bytes(0x20B, 0x0002_5A30);
    buf.extend_from_slice(&pe64_tail_bytes(0x0000_0001_4000_0000));
    let (h, rest) = OptionalHeader::from_bytes(&buf).unwrap();
    assert_eq!(h.magic, ImageType::Pe64);
    assert_eq!(h.major_linker_version, 14);
    assert_eq!(h.minor_linker_version, 29);
    assert_eq!(h.size_of_code, 0x0002_2000);
    assert_eq!(h.size_of_initialized_data, 0x0001_1000);
    assert_eq!(h.size_of_uninitialized_data, 0x400);
    assert_eq!(h.addr_of_entry_point, 0x0002_5A30);
    assert_eq!(h.base_of_code, 0x1000);
    match h.win_fields {
        WindowsSpecific::PE64(p) => {
            assert_eq!(p.image_base, 0x0000_0001_4000_0000);
            assert_eq!(p.section_alignment, 0x1000);
            assert_eq!(p.file_alignment, 0x200);
            assert_eq!(p.size_of_stack_reserve, 0x0008_0000);
            assert_eq!(p.size_of_heap_commit, 0x1000);
            assert_eq!(p.number_of_rva_and_sizes, 16);
        }
        WindowsSpecific::PE32(_) => panic!("magic 0x20B decoded as PE32"),
    }
    assert_eq!(rest.len(), 0);
}

#[test]
fn opt_header_pe32_dispatch() {
    let mut buf = opt_common_bytes(0x10B, 0x1234);
    buf.extend_from_slice(&pe32_tail_bytes(0x0040_0000));
    buf.push(0x55);
    let (h, rest) = OptionalHeader::from_bytes(&buf).unwrap();
    assert_eq!(h.magic, ImageType::Pe32);
    match h.win_fields {
        WindowsSpecific::PE32(p) => {
            assert_eq!(p.base_of_data, 0x2000);
            assert_eq!(p.image_base, 0x0040_0000);
            assert_eq!(p.subsystem, 3);
            assert_eq!(p.size_of_stack_reserve, 0x0010_0000);
            assert_eq!(p.number_of_rva_and_sizes, 16);
        }
        WindowsSpecific::PE64(_) => panic!("magic 0x10B decoded as PE64"),
    }
    assert_eq!(rest, &[0x55]);
}

#[test]
fn opt_header_rom_rejected() {
    let mut buf = opt_common_bytes(0x107, 0);
    buf.extend_from_slice(&pe32_tail_bytes(0));
    let r = OptionalHeader::from_bytes(&buf);
    assert!(matches!(r, Err(PeError::Unimplemented)));
}

#[test]
fn opt_header_unknown_magic_rejected() {
    let mut buf = opt_common_bytes(0x999, 0);
    buf.extend_from_slice(&pe64_tail_bytes(0));
    let r = OptionalHeader::from_bytes(&buf);
    assert!(matches!(r, Err(PeError::Unimplemented)));
}

#[test]
fn opt_header_tail_truncated() {
    let mut buf = opt_common_bytes(0x20B, 0);
    buf.extend_from_slice(&pe64_tail_bytes(0)[..87]);
    let r = OptionalHeader::from_bytes(&buf);
    assert!(matches!(r, Err(PeError::BufferTooSmall)));
}

#[test]
fn windows_specific_direct_dispatch() {
    let tail64 = pe64_tail_bytes(0x0000_0001_4000_0000);
    match WindowsSpecific::from_bytes(ImageType::Pe64, &tail64) {
        Ok((WindowsSpecific::PE64(p), rest)) => {
            assert_eq!(p.image_base, 0x0000_0001_4000_0000);
            assert_eq!(rest.len(), 0);
        }
        _ => panic!("64-bit tail did not decode as PE64"),
    }
    let tail32 = pe32_tail_bytes(0x0001_0000);
    match WindowsSpecific::from_bytes(ImageType::Pe32, &tail32) {
        Ok((WindowsSpecific::PE32(p), rest)) => {
            assert_eq!(p.image_base, 0x0001_0000);
            assert_eq!(rest.len(), 0);
        }
        _ => panic!("32-bit tail did not decode as PE32"),
    }
    assert!(matches!(
        WindowsSpecific::from_bytes(ImageType::ROM, &tail32),
        Err(PeError::Unimplemented)
    ));
    assert!(matches!(
        WindowsSpecific::from_bytes(ImageType::Unknown, &tail32),
        Err(PeError::Unimplemented)
    ));
}

#[test]
fn pe64_tail_direct() {
    let buf = pe64_tail_bytes(0x0000_0001_4000_0000);
    let (p, rest) = Pe64::from_bytes(&buf).unwrap();
    assert_eq!(p.image_base, 0x0000_0001_4000_0000);
    assert_eq!(p.major_os_version, 10);
    assert_eq!(p.subsystem, 2);
    assert_eq!(p.dll_characteristics, 0xC160);
    assert_eq!(rest.len(), 0);
    assert!(matches!(Pe64::from_bytes(&buf[..87]), Err(PeError::BufferTooSmall)));
}

#[test]
fn pe32_tail_direct() {
    let buf = pe32_tail_bytes(0x0040_0000);
    let (p, rest) = Pe32::from_bytes(&buf).unwrap();
    assert_eq!(p.base_of_data, 0x2000);
    assert_eq!(p.image_base, 0x0040_0000);
    assert_eq!(p.checksum, 0xBEEF_0002);
    assert_eq!(rest.len(), 0);
    assert!(matches!(Pe32::from_bytes(&buf[..71]), Err(PeError::BufferTooSmall)));
}

#[test]
fn pe_end_to_end_64bit() {
    let data = pe64_image(32);
    let pe = PE::from_bytes(&data).unwrap();
    assert_eq!(pe.dos_header.e_magic, 0x5A4D);
    assert_eq!(pe.dos_header.e_lfanew, 0xF8);
    assert_eq!(pe.file_header.magic, 0x4550);
    assert_eq!(pe.file_header.machine, MachineType::Amd64);
    assert_eq!(pe.opt_header.addr_of_entry_point, 0x0002_5A30);
    match &pe.opt_header.win_fields {
        WindowsSpecific::PE64(p) => {
            assert_ne!(p.image_base, 0);
            assert_eq!(p.image_base % 0x1000, 0); // page-aligned
            assert_eq!(p.image_base, 0x0000_0001_4000_0000);
        }
        WindowsSpecific::PE32(_) => panic!("64-bit image decoded as PE32"),
    }
    // Positional round trip: DOS header + stub + COFF header + optional
    // header + remainder account for every input byte.
    assert_eq!(pe.dos_stub.len(), 184);
    assert_eq!(pe.remaining_bytes(), 32);
    assert_eq!(data.len(), 64 + pe.dos_stub.len() + 24 + 112 + pe.remaining_bytes());
    // The stub is kept verbatim.
    assert_eq!(pe.dos_stub.as_slice(), &data[64..0xF8]);
}

#[test]
fn pe_end_to_end_32bit() {
    let data = pe32_image(7);
    let pe = PE::from_bytes(&data).unwrap();
    assert_eq!(pe.dos_header.e_lfanew, 64);
    assert_eq!(pe.dos_stub.len(), 0);
    assert_eq!(pe.file_header.machine, MachineType::I386);
    match &pe.opt_header.win_fields {
        WindowsSpecific::PE32(p) => assert_eq!(p.image_base, 0x0040_0000),
        WindowsSpecific::PE64(_) => panic!("32-bit image decoded as PE64"),
    }
    assert_eq!(pe.remaining_bytes(), 7);
    assert_eq!(data.len(), 64 + pe.dos_stub.len() + 24 + 96 + pe.remaining_bytes());
}

#[test]
fn pe_truncated_dos() {
    let data = pe64_image(0);
    let r = PE::from_bytes(&data[..63]);
    assert!(matches!(r, Err(PeError::BufferTooSmall)));
}

#[test]
fn pe_lfanew_before_dos_end() {
    let data = dos_header_bytes(0x5A4D, 63);
    let r = PE::from_bytes(&data);
    assert!(matches!(r, Err(PeError::MalformedOffset)));
}

#[test]
fn pe_lfanew_past_buffer_end() {
    let data = dos_header_bytes(0x5A4D, 0x1_0000);
    let r = PE::from_bytes(&data);
    assert!(matches!(r, Err(PeError::BufferTooSmall)));
}

#[test]
fn pe_invalid_machine() {
    let mut data = dos_header_bytes(0x5A4D, 64);
    data.extend_from_slice(&file_header_bytes(0x9999));
    data.extend_from_slice(&opt_common_bytes(0x20B, 0));
    data.extend_from_slice(&pe64_tail_bytes(0));
    let r = PE::from_bytes(&data);
    assert!(matches!(r, Err(PeError::InvalidMachineType(0x9999))));
}

#[test]
fn pe_rom_variant_rejected() {
    let mut data = dos_header_bytes(0x5A4D, 64);
    data.extend_from_slice(&file_header_bytes(0x14C));
    data.extend_from_slice(&opt_common_bytes(0x107, 0));
    data.extend_from_slice(&pe32_tail_bytes(0));
    let r = PE::from_bytes(&data);
    assert!(matches!(r, Err(PeError::Unimplemented)));
}
