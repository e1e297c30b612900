use vstd::prelude::*;

verus! {

/// The named flags of the COFF header's 16-bit characteristics bitmask,
/// one per bit position.
#[derive(Debug, Clone, Copy, PartialEq, Eq, Structural)]
pub enum CharacteristicsFlag {
    /// Bit 0: the file holds no base relocations and must be loaded at
    /// its preferred base address.
    RelocsStripped,
    /// Bit 1: image only; the image file is valid and can be run.
    ExecutableImage,
    /// Bit 2: COFF line numbers have been removed (deprecated).
    LineNumsStripped,
    /// Bit 3: COFF symbol table entries for local symbols have been
    /// removed (deprecated).
    LocalSymsStripped,
    /// Bit 4: obsolete; aggressively trim the working set.
    AggressiveWsTrim,
    /// Bit 5: the application can handle addresses over 2 GB.
    LargeAddressAware,
    /// Bit 6: reserved for future use.
    Reserved,
    /// Bit 7: little endian (deprecated).
    BytesReversedLo,
    /// Bit 8: the machine is based on a 32-bit-word architecture.
    Machine32Bit,
    /// Bit 9: debugging information is removed from the image file.
    DebugStripped,
    /// Bit 10: if the image is on removable media, fully load it and
    /// copy it to the swap file.
    RemovableRunFromSwap,
    /// Bit 11: if the image is on network media, fully load it and copy
    /// it to the swap file.
    NetRunFromSwap,
    /// Bit 12: the image file is a system file, not a user program.
    System,
    /// Bit 13: the image file is a dynamic-link library (DLL).
    Dll,
    /// Bit 14: the file should be run only on a uniprocessor machine.
    UpSystemOnly,
    /// Bit 15: big endian (deprecated).
    BytesReversedHi,
    /// Stands for no flag at all; never produced by the decomposition.
    Invalid,
}

/// The flag assigned to bit position `i` of the characteristics mask.
pub open spec fn spec_flag_of_bit(i: int) -> CharacteristicsFlag {
    if i == 0 {
        CharacteristicsFlag::RelocsStripped
    } else if i == 1 {
        CharacteristicsFlag::ExecutableImage
    } else if i == 2 {
        CharacteristicsFlag::LineNumsStripped
    } else if i == 3 {
        CharacteristicsFlag::LocalSymsStripped
    } else if i == 4 {
        CharacteristicsFlag::AggressiveWsTrim
    } else if i == 5 {
        CharacteristicsFlag::LargeAddressAware
    } else if i == 6 {
        CharacteristicsFlag::Reserved
    } else if i == 7 {
        CharacteristicsFlag::BytesReversedLo
    } else if i == 8 {
        CharacteristicsFlag::Machine32Bit
    } else if i == 9 {
        CharacteristicsFlag::DebugStripped
    } else if i == 10 {
        CharacteristicsFlag::RemovableRunFromSwap
    } else if i == 11 {
        CharacteristicsFlag::NetRunFromSwap
    } else if i == 12 {
        CharacteristicsFlag::System
    } else if i == 13 {
        CharacteristicsFlag::Dll
    } else if i == 14 {
        CharacteristicsFlag::UpSystemOnly
    } else if i == 15 {
        CharacteristicsFlag::BytesReversedHi
    } else {
        CharacteristicsFlag::Invalid
    }
}

/// The flags of the set bits of `value` at positions `i` and above, in
/// least-significant-bit-first order: bit `i` of the original mask is the
/// lowest bit of `value` here, the mask having been halved `i` times.
pub open spec fn spec_characteristics(value: int, i: int) -> Seq<CharacteristicsFlag>
    decreases 16 - i,
{
    if i < 0 || i >= 16 {
        Seq::empty()
    } else {
        let rest = spec_characteristics(value / 2, i + 1);
        if value % 2 == 1 {
            seq![spec_flag_of_bit(i)] + rest
        } else {
            rest
        }
    }
}

impl CharacteristicsFlag {
    /// The flag assigned to bit position `i`.
    fn of_bit(i: u16) -> (f: CharacteristicsFlag)
        requires
            i < 16,
        ensures
            f == spec_flag_of_bit(i as int),
    {
        match i {
            0 => CharacteristicsFlag::RelocsStripped,
            1 => CharacteristicsFlag::ExecutableImage,
            2 => CharacteristicsFlag::LineNumsStripped,
            3 => CharacteristicsFlag::LocalSymsStripped,
            4 => CharacteristicsFlag::AggressiveWsTrim,
            5 => CharacteristicsFlag::LargeAddressAware,
            6 => CharacteristicsFlag::Reserved,
            7 => CharacteristicsFlag::BytesReversedLo,
            8 => CharacteristicsFlag::Machine32Bit,
            9 => CharacteristicsFlag::DebugStripped,
            10 => CharacteristicsFlag::RemovableRunFromSwap,
            11 => CharacteristicsFlag::NetRunFromSwap,
            12 => CharacteristicsFlag::System,
            13 => CharacteristicsFlag::Dll,
            14 => CharacteristicsFlag::UpSystemOnly,
            _ => CharacteristicsFlag::BytesReversedHi,
        }
    }

    /// Decomposes a characteristics bitmask into the ordered list of its
    /// set bits' flags, least-significant bit first. The result is a
    /// function of the mask alone: decomposing the same mask twice yields
    /// the same list.
    pub fn to_vec(value: u16) -> (r: Vec<CharacteristicsFlag>)
        ensures
            r@ == spec_characteristics(value as int, 0),
    {
        let mut flags: Vec<CharacteristicsFlag> = Vec::new();
        let mut v: u16 = value;
        let mut i: u16 = 0;
        while i < 16
            invariant
                i <= 16,
                flags@ + spec_characteristics(v as int, i as int) == spec_characteristics(
                    value as int,
                    0,
                ),
            decreases 16 - i,
        {
            if v % 2 == 1 {
                flags.push(CharacteristicsFlag::of_bit(i));
                proof {
                    assert((flags@ + spec_characteristics(v as int / 2, i + 1)) =~= (flags@.drop_last()
                        + spec_characteristics(v as int, i as int)));
                }
            }
            v = v / 2;
            i = i + 1;
        }
        proof {
            assert(flags@ + spec_characteristics(v as int, 16) =~= flags@);
        }
        flags
    }
}

/// Decomposition is deterministic: two decompositions of the same
/// 16-bit mask are the same list, identically ordered — the list is a
/// function of the mask alone.
pub proof fn lemma_characteristics_deterministic(
    a: Seq<CharacteristicsFlag>,
    b: Seq<CharacteristicsFlag>,
    mask: u16,
)
    requires
        a == spec_characteristics(mask as int, 0),
        b == spec_characteristics(mask as int, 0),
    ensures
        a == b,
{
}

} // verus!
