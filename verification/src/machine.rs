use vstd::prelude::*;

use crate::error::PeError;

verus! {

/// The closed set of hardware targets a COFF file header may name.
///
/// Only the raw values of the fixed table below decode to a variant;
/// `Unknown` is itself a table entry (raw value 0), not a fallback.
#[derive(Debug, Clone, Copy, PartialEq, Eq, Structural)]
pub enum MachineType {
    /// The content of this field is assumed to be applicable to any machine
    Unknown,
    /// Matsushita AM33
    Am33,
    /// x64
    Amd64,
    /// Arm little endian
    Arm,
    /// Arm64 little endian
    Arm64,
    /// Arm Thumb-2 little endian
    ArmNt,
    /// EFI byte code
    Ebc,
    /// Intel 386 or later processors and compatible processors
    I386,
    /// Intel Itanium processor family
    Ia64,
    /// LoongArch 32-bit processor family
    LoongArch32,
    /// LoongArch 64-bit processor family
    LoongArch64,
    /// Mitsubishi M32R little endian
    M32R,
    /// Mips16
    Mips16,
    /// Mips with FPU
    MipsFpu,
    /// Mips16 with FPU
    MipsFpu16,
    /// Power PC little endian
    PowerPc,
    /// Power PC with floating point support
    PowerPcFp,
    /// Mips little endian
    R4000,
    /// Risc-V 32-bit address space
    RiscV32,
    /// Risc-V 64-bit address space
    RiscV64,
    /// Risc-V 128-bit address space
    RiscV128,
    /// Hitachi SH3
    Sh3,
    /// Hitachi SH3 DSP
    Sh3Dsp,
    /// Hitachi SH4
    Sh4,
    /// Hitachi SH5
    Sh5,
    /// Thumb
    Thumb,
    /// Mips little-endian WCE v2
    WceMipsV2,
}

/// The fixed machine-type table: the variant a raw 16-bit value decodes
/// to, or `None` for every value outside the table.
pub open spec fn spec_machine_type(value: u16) -> Option<MachineType> {
    if value == 0x0 {
        Some(MachineType::Unknown)
    } else if value == 0x1d3 {
        Some(MachineType::Am33)
    } else if value == 0x8664 {
        Some(MachineType::Amd64)
    } else if value == 0x1c0 {
        Some(MachineType::Arm)
    } else if value == 0xaa64 {
        Some(MachineType::Arm64)
    } else if value == 0x1c4 {
        Some(MachineType::ArmNt)
    } else if value == 0xebc {
        Some(MachineType::Ebc)
    } else if value == 0x14c {
        Some(MachineType::I386)
    } else if value == 0x200 {
        Some(MachineType::Ia64)
    } else if value == 0x6232 {
        Some(MachineType::LoongArch32)
    } else if value == 0x6264 {
        Some(MachineType::LoongArch64)
    } else if value == 0x9041 {
        Some(MachineType::M32R)
    } else if value == 0x266 {
        Some(MachineType::Mips16)
    } else if value == 0x366 {
        Some(MachineType::MipsFpu)
    } else if value == 0x466 {
        Some(MachineType::MipsFpu16)
    } else if value == 0x1f0 {
        Some(MachineType::PowerPc)
    } else if value == 0x1f1 {
        Some(MachineType::PowerPcFp)
    } else if value == 0x166 {
        Some(MachineType::R4000)
    } else if value == 0x5032 {
        Some(MachineType::RiscV32)
    } else if value == 0x5064 {
        Some(MachineType::RiscV64)
    } else if value == 0x5128 {
        Some(MachineType::RiscV128)
    } else if value == 0x1a2 {
        Some(MachineType::Sh3)
    } else if value == 0x1a3 {
        Some(MachineType::Sh3Dsp)
    } else if value == 0x1a6 {
        Some(MachineType::Sh4)
    } else if value == 0x1a8 {
        Some(MachineType::Sh5)
    } else if value == 0x1c2 {
        Some(MachineType::Thumb)
    } else if value == 0x169 {
        Some(MachineType::WceMipsV2)
    } else {
        None
    }
}

impl MachineType {
    /// Decodes a raw machine value against the fixed table: the matching
    /// variant for every value the table holds, and for every other value
    /// in 0..=0xFFFF the error `InvalidMachineType` carrying that value.
    pub fn from_u16(value: u16) -> (r: Result<MachineType, PeError>)
        ensures
            match r {
                Ok(m) => Some(m) == spec_machine_type(value),
                Err(e) => {
                    &&& spec_machine_type(value) is None
                    &&& e == PeError::InvalidMachineType(value)
                },
            },
    {
        match value {
            0x0 => Ok(MachineType::Unknown),
            0x1d3 => Ok(MachineType::Am33),
            0x8664 => Ok(MachineType::Amd64),
            0x1c0 => Ok(MachineType::Arm),
            0xaa64 => Ok(MachineType::Arm64),
            0x1c4 => Ok(MachineType::ArmNt),
            0xebc => Ok(MachineType::Ebc),
            0x14c => Ok(MachineType::I386),
            0x200 => Ok(MachineType::Ia64),
            0x6232 => Ok(MachineType::LoongArch32),
            0x6264 => Ok(MachineType::LoongArch64),
            0x9041 => Ok(MachineType::M32R),
            0x266 => Ok(MachineType::Mips16),
            0x366 => Ok(MachineType::MipsFpu),
            0x466 => Ok(MachineType::MipsFpu16),
            0x1f0 => Ok(MachineType::PowerPc),
            0x1f1 => Ok(MachineType::PowerPcFp),
            0x166 => Ok(MachineType::R4000),
            0x5032 => Ok(MachineType::RiscV32),
            0x5064 => Ok(MachineType::RiscV64),
            0x5128 => Ok(MachineType::RiscV128),
            0x1a2 => Ok(MachineType::Sh3),
            0x1a3 => Ok(MachineType::Sh3Dsp),
            0x1a6 => Ok(MachineType::Sh4),
            0x1a8 => Ok(MachineType::Sh5),
            0x1c2 => Ok(MachineType::Thumb),
            0x169 => Ok(MachineType::WceMipsV2),
            _ => Err(PeError::InvalidMachineType(value)),
        }
    }
}

} // verus!
