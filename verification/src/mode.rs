use vstd::prelude::*;
use crate::file_type::FileType;
use crate::perm::Permissions;

verus! {

/// The mask of the mode-word bits this codec defines: the five type flags
/// in the high byte and the nine permission bits. Bit 28 is permanently
/// reserved; bits 25 and 24 are unused; bits 9 to 23 carry no meaning.
pub const FILE_MODE_MASK: u32 = 0xEC0001FF;

/// Permissions and type flags of an entity, packed together into one
/// 32-bit mode word: permission bits in bits 0 to 8, type flags in the
/// high byte.
#[derive(Clone, Copy, Debug, PartialEq, Eq, Structural)]
#[verifier::ext_equal]
pub struct FileMode {
    pub permissions: Permissions,
    pub file_type: FileType,
}

impl FileMode {
    /// The structured mode a 32-bit word decodes to: the permission codec
    /// on the low bits and the type codec on the high byte.
    pub open spec fn spec_from_bits(fields: u32) -> FileMode {
        FileMode {
            permissions: Permissions::spec_from_bits(fields),
            file_type: FileType::spec_from_bits((fields >> 24) as u8),
        }
    }

    /// The word a structured mode encodes to: the OR of the two
    /// sub-encodings, with the type byte shifted into bits 24 to 31.
    pub open spec fn spec_to_bits(self) -> u32 {
        self.permissions.spec_to_bits() | ((self.file_type.spec_to_bits() as u32) << 24)
    }

    /// Decodes a full mode word. Never fails.
    pub fn from_bits(fields: u32) -> (m: FileMode)
        ensures
            m == FileMode::spec_from_bits(fields),
    {
        FileMode {
            permissions: Permissions::from_bits(fields),
            file_type: FileType::from_bits((fields >> 24) as u8),
        }
    }

    /// Encodes the structured mode back into a full mode word.
    pub fn to_bits(&self) -> (b: u32)
        ensures
            b == self.spec_to_bits(),
    {
        self.permissions.to_bits() | ((self.file_type.to_bits() as u32) << 24)
    }
}

/// Law: decoding a mode word and re-encoding the structured mode keeps
/// exactly the defined bits: the nine permission bits and the five type
/// flags; the reserved and unused bits come out zero.
pub proof fn lemma_file_mode_round_trip(fields: u32)
    ensures
        FileMode::spec_from_bits(fields).spec_to_bits() == fields & FILE_MODE_MASK,
{
    crate::perm::lemma_permissions_round_trip(fields);
    crate::file_type::lemma_file_type_round_trip((fields >> 24) as u8);
    assert(((fields & 0x1ffu32) | (((((fields >> 24) as u8) & 0b11101100u8) as u32) << 24))
        == fields & 0xEC0001FFu32) by (bit_vector);
}

/// Law: on every word whose reserved and unused high bits are clear, the
/// defined bits survive a decode followed by an encode unchanged.
pub proof fn lemma_file_mode_defined_bits(fields: u32)
    requires
        fields & 0x13000000 == 0,
    ensures
        FileMode::spec_from_bits(fields).spec_to_bits() & 0xFF0001FF == fields & 0xFF0001FF,
{
    lemma_file_mode_round_trip(fields);
    assert(((fields & 0xEC0001FFu32) & 0xFF0001FFu32) == fields & 0xFF0001FFu32) by (bit_vector)
        requires
            fields & 0x13000000u32 == 0u32,
    ;
}

/// Law: every structured mode decodes back to itself after an encode.
pub proof fn lemma_file_mode_decode_encode(m: FileMode)
    ensures
        FileMode::spec_from_bits(m.spec_to_bits()) == m,
{
    let p = m.permissions.spec_to_bits();
    let t = m.file_type.spec_to_bits();
    let w = m.spec_to_bits();
    crate::perm::lemma_permissions_bits_in_mask(m.permissions);
    assert((((p | ((t as u32) << 24)) & 0b100000000u32 != 0) == (p & 0b100000000u32 != 0))
        && ((p | ((t as u32) << 24)) & 0b010000000u32 != 0) == (p & 0b010000000u32 != 0)
        && ((p | ((t as u32) << 24)) & 0b001000000u32 != 0) == (p & 0b001000000u32 != 0)
        && ((p | ((t as u32) << 24)) & 0b000100000u32 != 0) == (p & 0b000100000u32 != 0)
        && ((p | ((t as u32) << 24)) & 0b000010000u32 != 0) == (p & 0b000010000u32 != 0)
        && ((p | ((t as u32) << 24)) & 0b000001000u32 != 0) == (p & 0b000001000u32 != 0)
        && ((p | ((t as u32) << 24)) & 0b000000100u32 != 0) == (p & 0b000000100u32 != 0)
        && ((p | ((t as u32) << 24)) & 0b000000010u32 != 0) == (p & 0b000000010u32 != 0)
        && ((p | ((t as u32) << 24)) & 0b000000001u32 != 0) == (p & 0b000000001u32 != 0)
        && (((p | ((t as u32) << 24)) >> 24) as u8) == t) by (bit_vector)
        requires
            p & 0x1ffu32 == p,
    ;
    assert(Permissions::spec_from_bits(w) =~= Permissions::spec_from_bits(p));
    crate::perm::lemma_permissions_decode_encode(m.permissions);
    crate::file_type::lemma_file_type_decode_encode(m.file_type);
    assert(FileMode::spec_from_bits(w) =~= m);
}

} // verus!
