use vstd::prelude::*;

verus! {

// The five type flags, packed top-to-bottom into a byte; when that byte is
// the high byte of a 32-bit mode word these are bits 31, 30, 29, 27 and 26.
pub const BIT_DIR: u8 = 0b10000000;
pub const BIT_APPEND_ONLY: u8 = 0b01000000;
pub const BIT_EXCLUSIVE: u8 = 0b00100000;
pub const BIT_AUTH: u8 = 0b00001000;
pub const BIT_TEMPORARY: u8 = 0b00000100;

/// The mask of the flag bits that carry meaning. Bit 4 is permanently
/// reserved for historical protocol reasons; bits 1 and 0 are unused. All
/// three must be left zero on encode and are ignored on decode.
pub const FILE_TYPE_MASK: u8 = 0b11101100;

/// The five independent type flags of a filesystem entity.
#[derive(Clone, Copy, Debug, PartialEq, Eq, Structural)]
#[verifier::ext_equal]
pub struct FileType {
    pub is_dir: bool,
    pub is_append_only: bool,
    pub is_exclusive: bool,
    pub is_auth: bool,
    pub is_temporary: bool,
}

impl FileType {
    /// The flags a type byte decodes to; the reserved and unused bits are
    /// ignored.
    pub open spec fn spec_from_bits(b: u8) -> FileType {
        FileType {
            is_dir: b & BIT_DIR != 0,
            is_append_only: b & BIT_APPEND_ONLY != 0,
            is_exclusive: b & BIT_EXCLUSIVE != 0,
            is_auth: b & BIT_AUTH != 0,
            is_temporary: b & BIT_TEMPORARY != 0,
        }
    }

    /// The byte the flags encode to; the reserved and unused bits are
    /// always zero.
    pub open spec fn spec_to_bits(self) -> u8 {
        (if self.is_dir { BIT_DIR } else { 0 })
            | (if self.is_append_only { BIT_APPEND_ONLY } else { 0 })
            | (if self.is_exclusive { BIT_EXCLUSIVE } else { 0 })
            | (if self.is_auth { BIT_AUTH } else { 0 })
            | (if self.is_temporary { BIT_TEMPORARY } else { 0 })
    }

    /// Decodes the five flag bits of a type byte. Never fails.
    pub fn from_bits(b: u8) -> (t: FileType)
        ensures
            t == FileType::spec_from_bits(b),
    {
        FileType {
            // bit 28 of the mode word is skipped for 'historical reasons'
            is_dir: b & BIT_DIR != 0,
            is_append_only: b & BIT_APPEND_ONLY != 0,
            is_exclusive: b & BIT_EXCLUSIVE != 0,
            is_auth: b & BIT_AUTH != 0,
            is_temporary: b & BIT_TEMPORARY != 0,
        }
    }

    /// Encodes the flags back into a type byte.
    pub fn to_bits(&self) -> (b: u8)
        ensures
            b == self.spec_to_bits(),
    {
        // bit 28 of the mode word is skipped for 'historical reasons'
        (if self.is_dir { BIT_DIR } else { 0 })
            | (if self.is_append_only { BIT_APPEND_ONLY } else { 0 })
            | (if self.is_exclusive { BIT_EXCLUSIVE } else { 0 })
            | (if self.is_auth { BIT_AUTH } else { 0 })
            | (if self.is_temporary { BIT_TEMPORARY } else { 0 })
    }
}

/// Law: decoding a type byte and re-encoding the flags keeps exactly the
/// five meaningful bits; the reserved and unused bits come out zero.
pub proof fn lemma_file_type_round_trip(b: u8)
    ensures
        FileType::spec_from_bits(b).spec_to_bits() == b & FILE_TYPE_MASK,
{
    assert(((if b & 0b10000000u8 != 0 { 0b10000000u8 } else { 0 })
        | (if b & 0b01000000u8 != 0 { 0b01000000u8 } else { 0 })
        | (if b & 0b00100000u8 != 0 { 0b00100000u8 } else { 0 })
        | (if b & 0b00001000u8 != 0 { 0b00001000u8 } else { 0 })
        | (if b & 0b00000100u8 != 0 { 0b00000100u8 } else { 0 })) == b & 0b11101100u8)
        by (bit_vector);
}

/// Law: every byte whose reserved and unused bits are clear encodes back
/// to itself after a decode.
pub proof fn lemma_file_type_encode_decode(b: u8)
    requires
        b & FILE_TYPE_MASK == b,
    ensures
        FileType::spec_from_bits(b).spec_to_bits() == b,
{
    lemma_file_type_round_trip(b);
}

/// An encoded type byte can only set the five meaningful bits.
pub proof fn lemma_file_type_bits_in_mask(t: FileType)
    ensures
        t.spec_to_bits() & FILE_TYPE_MASK == t.spec_to_bits(),
{
    lemma_type_masks_recoverable(
        t.is_dir, t.is_append_only, t.is_exclusive, t.is_auth, t.is_temporary,
    );
}

/// Law: every flag combination decodes back to itself after an encode.
pub proof fn lemma_file_type_decode_encode(t: FileType)
    ensures
        FileType::spec_from_bits(t.spec_to_bits()) == t,
{
    lemma_type_masks_recoverable(
        t.is_dir, t.is_append_only, t.is_exclusive, t.is_auth, t.is_temporary,
    );
    assert(FileType::spec_from_bits(t.spec_to_bits()) =~= t);
}

/// Each flag of an encoded type byte is recoverable from its own mask: the
/// five masks are disjoint, so the OR of any subset meets a mask exactly
/// when that mask's flag contributed.
proof fn lemma_type_masks_recoverable(dir: bool, append: bool, excl: bool, auth: bool, tmp: bool)
    by (bit_vector)
    ensures
        ({
            let b = (if dir { 0b10000000u8 } else { 0 })
                | (if append { 0b01000000u8 } else { 0 })
                | (if excl { 0b00100000u8 } else { 0 })
                | (if auth { 0b00001000u8 } else { 0 })
                | (if tmp { 0b00000100u8 } else { 0 });
            (b & 0b10000000u8 != 0) == dir
                && (b & 0b01000000u8 != 0) == append
                && (b & 0b00100000u8 != 0) == excl
                && (b & 0b00001000u8 != 0) == auth
                && (b & 0b00000100u8 != 0) == tmp
                && b & 0b11101100u8 == b
        }),
{
}

} // verus!
