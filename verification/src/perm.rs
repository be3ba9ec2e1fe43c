use vstd::prelude::*;

verus! {

// The nine permission bits, rwxrwxrwx with owner most significant, in the
// low 9 bits of a 32-bit mode word.
pub const BIT_OTHER_EXECUTE: u32 = 0b000000001;
pub const BIT_OTHER_WRITE: u32 = 0b000000010;
pub const BIT_OTHER_READ: u32 = 0b000000100;

pub const BIT_GROUP_EXECUTE: u32 = 0b000001000;
pub const BIT_GROUP_WRITE: u32 = 0b000010000;
pub const BIT_GROUP_READ: u32 = 0b000100000;

pub const BIT_OWNER_EXECUTE: u32 = 0b001000000;
pub const BIT_OWNER_WRITE: u32 = 0b010000000;
pub const BIT_OWNER_READ: u32 = 0b100000000;

/// Permission bits for one principal class.
#[derive(Clone, Copy, Debug, PartialEq, Eq, Structural)]
#[verifier::ext_equal]
pub struct IndividualPermissions {
    pub read: bool,
    pub write: bool,
    pub execute: bool,
}

/// The rwxrwxrwx permission triple, decoded from / encoded to the low
/// 9 bits of a 32-bit mode word; owner is most significant.
#[derive(Clone, Copy, Debug, PartialEq, Eq, Structural)]
#[verifier::ext_equal]
pub struct Permissions {
    pub owner: IndividualPermissions,
    pub group: IndividualPermissions,
    pub other: IndividualPermissions,
}

impl Permissions {
    /// The permission triple a 32-bit mode word decodes to: each of the
    /// nine low bits sets one flag; higher bits are outside this codec's
    /// domain and are ignored.
    pub open spec fn spec_from_bits(fields: u32) -> Permissions {
        Permissions {
            owner: IndividualPermissions {
                read: fields & BIT_OWNER_READ != 0,
                write: fields & BIT_OWNER_WRITE != 0,
                execute: fields & BIT_OWNER_EXECUTE != 0,
            },
            group: IndividualPermissions {
                read: fields & BIT_GROUP_READ != 0,
                write: fields & BIT_GROUP_WRITE != 0,
                execute: fields & BIT_GROUP_EXECUTE != 0,
            },
            other: IndividualPermissions {
                read: fields & BIT_OTHER_READ != 0,
                write: fields & BIT_OTHER_WRITE != 0,
                execute: fields & BIT_OTHER_EXECUTE != 0,
            },
        }
    }

    /// The word a permission triple encodes to: the OR of the masks of the
    /// flags that are set. Only the low 9 bits can be set.
    pub open spec fn spec_to_bits(self) -> u32 {
        (if self.owner.read { BIT_OWNER_READ } else { 0 })
            | (if self.owner.write { BIT_OWNER_WRITE } else { 0 })
            | (if self.owner.execute { BIT_OWNER_EXECUTE } else { 0 })
            | (if self.group.read { BIT_GROUP_READ } else { 0 })
            | (if self.group.write { BIT_GROUP_WRITE } else { 0 })
            | (if self.group.execute { BIT_GROUP_EXECUTE } else { 0 })
            | (if self.other.read { BIT_OTHER_READ } else { 0 })
            | (if self.other.write { BIT_OTHER_WRITE } else { 0 })
            | (if self.other.execute { BIT_OTHER_EXECUTE } else { 0 })
    }

    /// Decodes the nine fixed bit masks of a mode word. Never fails.
    pub fn from_bits(fields: u32) -> (p: Permissions)
        ensures
            p == Permissions::spec_from_bits(fields),
    {
        Permissions {
            owner: IndividualPermissions {
                read: fields & BIT_OWNER_READ != 0,
                write: fields & BIT_OWNER_WRITE != 0,
                execute: fields & BIT_OWNER_EXECUTE != 0,
            },
            group: IndividualPermissions {
                read: fields & BIT_GROUP_READ != 0,
                write: fields & BIT_GROUP_WRITE != 0,
                execute: fields & BIT_GROUP_EXECUTE != 0,
            },
            other: IndividualPermissions {
                read: fields & BIT_OTHER_READ != 0,
                write: fields & BIT_OTHER_WRITE != 0,
                execute: fields & BIT_OTHER_EXECUTE != 0,
            },
        }
    }

    /// Encodes the triple back into the low 9 bits of a word.
    pub fn to_bits(&self) -> (b: u32)
        ensures
            b == self.spec_to_bits(),
    {
        (if self.owner.read { BIT_OWNER_READ } else { 0 })
            | (if self.owner.write { BIT_OWNER_WRITE } else { 0 })
            | (if self.owner.execute { BIT_OWNER_EXECUTE } else { 0 })
            | (if self.group.read { BIT_GROUP_READ } else { 0 })
            | (if self.group.write { BIT_GROUP_WRITE } else { 0 })
            | (if self.group.execute { BIT_GROUP_EXECUTE } else { 0 })
            | (if self.other.read { BIT_OTHER_READ } else { 0 })
            | (if self.other.write { BIT_OTHER_WRITE } else { 0 })
            | (if self.other.execute { BIT_OTHER_EXECUTE } else { 0 })
    }
}

impl IndividualPermissions {
    /// The bits of one class after creation under a directory whose own
    /// bits for that class are `dir`: read and write are granted only where
    /// the directory grants them; execute passes through unmasked.
    pub open spec fn spec_mask_for_file(self, dir: IndividualPermissions) -> IndividualPermissions {
        IndividualPermissions {
            read: self.read && dir.read,
            write: self.write && dir.write,
            execute: self.execute,
        }
    }

    /// The bits of one class after creation of a directory: all three are
    /// granted only where the parent directory grants them.
    pub open spec fn spec_mask_for_dir(self, dir: IndividualPermissions) -> IndividualPermissions {
        IndividualPermissions {
            read: self.read && dir.read,
            write: self.write && dir.write,
            execute: self.execute && dir.execute,
        }
    }
}

impl Permissions {
    /// Effective permissions of a newly created regular file: the requested
    /// bits masked down by the directory's read/write bits, the wire formula
    /// `perm & (!0o666 | (dir.perm & 0o666))`.
    pub open spec fn spec_mask_for_file(self, dir: Permissions) -> Permissions {
        Permissions {
            owner: self.owner.spec_mask_for_file(dir.owner),
            group: self.group.spec_mask_for_file(dir.group),
            other: self.other.spec_mask_for_file(dir.other),
        }
    }

    /// Effective permissions of a newly created directory: the requested
    /// bits masked down by all of the parent's permission bits, the wire
    /// formula `perm & (!0o777 | (dir.perm & 0o777))`.
    pub open spec fn spec_mask_for_dir(self, dir: Permissions) -> Permissions {
        Permissions {
            owner: self.owner.spec_mask_for_dir(dir.owner),
            group: self.group.spec_mask_for_dir(dir.group),
            other: self.other.spec_mask_for_dir(dir.other),
        }
    }

    /// The permissions a file created with these requested bits receives
    /// under a directory carrying `dir`.
    pub fn mask_for_file(&self, dir: &Permissions) -> (r: Permissions)
        ensures
            r == self.spec_mask_for_file(*dir),
    {
        Permissions {
            owner: IndividualPermissions {
                read: self.owner.read && dir.owner.read,
                write: self.owner.write && dir.owner.write,
                execute: self.owner.execute,
            },
            group: IndividualPermissions {
                read: self.group.read && dir.group.read,
                write: self.group.write && dir.group.write,
                execute: self.group.execute,
            },
            other: IndividualPermissions {
                read: self.other.read && dir.other.read,
                write: self.other.write && dir.other.write,
                execute: self.other.execute,
            },
        }
    }

    /// The permissions a directory created with these requested bits
    /// receives under a parent carrying `dir`.
    pub fn mask_for_dir(&self, dir: &Permissions) -> (r: Permissions)
        ensures
            r == self.spec_mask_for_dir(*dir),
    {
        Permissions {
            owner: IndividualPermissions {
                read: self.owner.read && dir.owner.read,
                write: self.owner.write && dir.owner.write,
                execute: self.owner.execute && dir.owner.execute,
            },
            group: IndividualPermissions {
                read: self.group.read && dir.group.read,
                write: self.group.write && dir.group.write,
                execute: self.group.execute && dir.group.execute,
            },
            other: IndividualPermissions {
                read: self.other.read && dir.other.read,
                write: self.other.write && dir.other.write,
                execute: self.other.execute && dir.other.execute,
            },
        }
    }
}

/// Law: the flag-wise file-creation mask agrees with the wire formula
/// `perm & (!0o666 | (dir & 0o666))` on every pair of mode words.
pub proof fn lemma_mask_for_file_matches_wire(p: u32, d: u32)
    ensures
        Permissions::spec_from_bits(p).spec_mask_for_file(Permissions::spec_from_bits(d))
            == Permissions::spec_from_bits(p & (!0o666u32 | (d & 0o666))),
{
    let m = p & (!0o666u32 | (d & 0o666));
    assert((m & 0b100000000u32 != 0) == ((p & 0b100000000u32 != 0) && (d & 0b100000000u32 != 0))
        && (m & 0b010000000u32 != 0) == ((p & 0b010000000u32 != 0) && (d & 0b010000000u32 != 0))
        && (m & 0b001000000u32 != 0) == (p & 0b001000000u32 != 0)
        && (m & 0b000100000u32 != 0) == ((p & 0b000100000u32 != 0) && (d & 0b000100000u32 != 0))
        && (m & 0b000010000u32 != 0) == ((p & 0b000010000u32 != 0) && (d & 0b000010000u32 != 0))
        && (m & 0b000001000u32 != 0) == (p & 0b000001000u32 != 0)
        && (m & 0b000000100u32 != 0) == ((p & 0b000000100u32 != 0) && (d & 0b000000100u32 != 0))
        && (m & 0b000000010u32 != 0) == ((p & 0b000000010u32 != 0) && (d & 0b000000010u32 != 0))
        && (m & 0b000000001u32 != 0) == (p & 0b000000001u32 != 0)) by (bit_vector)
        requires
            m == p & (!0o666u32 | (d & 0o666)),
    ;
    assert(Permissions::spec_from_bits(p).spec_mask_for_file(Permissions::spec_from_bits(d))
        =~= Permissions::spec_from_bits(m));
}

/// Law: the flag-wise directory-creation mask agrees with the wire formula
/// `perm & (!0o777 | (dir & 0o777))` on every pair of mode words.
pub proof fn lemma_mask_for_dir_matches_wire(p: u32, d: u32)
    ensures
        Permissions::spec_from_bits(p).spec_mask_for_dir(Permissions::spec_from_bits(d))
            == Permissions::spec_from_bits(p & (!0o777u32 | (d & 0o777))),
{
    let m = p & (!0o777u32 | (d & 0o777));
    assert((m & 0b100000000u32 != 0) == ((p & 0b100000000u32 != 0) && (d & 0b100000000u32 != 0))
        && (m & 0b010000000u32 != 0) == ((p & 0b010000000u32 != 0) && (d & 0b010000000u32 != 0))
        && (m & 0b001000000u32 != 0) == ((p & 0b001000000u32 != 0) && (d & 0b001000000u32 != 0))
        && (m & 0b000100000u32 != 0) == ((p & 0b000100000u32 != 0) && (d & 0b000100000u32 != 0))
        && (m & 0b000010000u32 != 0) == ((p & 0b000010000u32 != 0) && (d & 0b000010000u32 != 0))
        && (m & 0b000001000u32 != 0) == ((p & 0b000001000u32 != 0) && (d & 0b000001000u32 != 0))
        && (m & 0b000000100u32 != 0) == ((p & 0b000000100u32 != 0) && (d & 0b000000100u32 != 0))
        && (m & 0b000000010u32 != 0) == ((p & 0b000000010u32 != 0) && (d & 0b000000010u32 != 0))
        && (m & 0b000000001u32 != 0) == ((p & 0b000000001u32 != 0) && (d & 0b000000001u32 != 0)))
        by (bit_vector)
        requires
            m == p & (!0o777u32 | (d & 0o777)),
    ;
    assert(Permissions::spec_from_bits(p).spec_mask_for_dir(Permissions::spec_from_bits(d))
        =~= Permissions::spec_from_bits(m));
}

/// Law: decoding a mode word and re-encoding the triple keeps exactly the
/// low 9 bits; every 9-bit word round-trips unchanged.
pub proof fn lemma_permissions_round_trip(b: u32)
    ensures
        Permissions::spec_from_bits(b).spec_to_bits() == b & 0x1ff,
{
    assert(((if b & 0b100000000u32 != 0 { 0b100000000u32 } else { 0 })
        | (if b & 0b010000000u32 != 0 { 0b010000000u32 } else { 0 })
        | (if b & 0b001000000u32 != 0 { 0b001000000u32 } else { 0 })
        | (if b & 0b000100000u32 != 0 { 0b000100000u32 } else { 0 })
        | (if b & 0b000010000u32 != 0 { 0b000010000u32 } else { 0 })
        | (if b & 0b000001000u32 != 0 { 0b000001000u32 } else { 0 })
        | (if b & 0b000000100u32 != 0 { 0b000000100u32 } else { 0 })
        | (if b & 0b000000010u32 != 0 { 0b000000010u32 } else { 0 })
        | (if b & 0b000000001u32 != 0 { 0b000000001u32 } else { 0 })) == b & 0x1ff)
        by (bit_vector);
}

/// Law: every 9-bit input encodes back to itself after a decode.
pub proof fn lemma_permissions_encode_decode(b: u32)
    requires
        b & 0x1ff == b,
    ensures
        Permissions::spec_from_bits(b).spec_to_bits() == b,
{
    lemma_permissions_round_trip(b);
}

/// An encoded triple can only set the nine permission bits.
pub proof fn lemma_permissions_bits_in_mask(p: Permissions)
    ensures
        p.spec_to_bits() & 0x1ff == p.spec_to_bits(),
{
    lemma_masks_recoverable(
        p.owner.read, p.owner.write, p.owner.execute,
        p.group.read, p.group.write, p.group.execute,
        p.other.read, p.other.write, p.other.execute,
    );
}

/// Law: every permission triple decodes back to itself after an encode.
pub proof fn lemma_permissions_decode_encode(p: Permissions)
    ensures
        Permissions::spec_from_bits(p.spec_to_bits()) == p,
{
    let b = p.spec_to_bits();
    lemma_masks_recoverable(
        p.owner.read, p.owner.write, p.owner.execute,
        p.group.read, p.group.write, p.group.execute,
        p.other.read, p.other.write, p.other.execute,
    );
    assert(Permissions::spec_from_bits(b) =~= p);
}

/// Each flag of an encoded triple is recoverable from its own mask: the
/// nine masks are disjoint, so the OR of any subset meets a mask exactly
/// when that mask's flag contributed.
proof fn lemma_masks_recoverable(
    owner_r: bool, owner_w: bool, owner_x: bool,
    group_r: bool, group_w: bool, group_x: bool,
    other_r: bool, other_w: bool, other_x: bool,
)
    by (bit_vector)
    ensures
        ({
            let b = (if owner_r { 0b100000000u32 } else { 0 })
                | (if owner_w { 0b010000000u32 } else { 0 })
                | (if owner_x { 0b001000000u32 } else { 0 })
                | (if group_r { 0b000100000u32 } else { 0 })
                | (if group_w { 0b000010000u32 } else { 0 })
                | (if group_x { 0b000001000u32 } else { 0 })
                | (if other_r { 0b000000100u32 } else { 0 })
                | (if other_w { 0b000000010u32 } else { 0 })
                | (if other_x { 0b000000001u32 } else { 0 });
            (b & 0b100000000u32 != 0) == owner_r
                && (b & 0b010000000u32 != 0) == owner_w
                && (b & 0b001000000u32 != 0) == owner_x
                && (b & 0b000100000u32 != 0) == group_r
                && (b & 0b000010000u32 != 0) == group_w
                && (b & 0b000001000u32 != 0) == group_x
                && (b & 0b000000100u32 != 0) == other_r
                && (b & 0b000000010u32 != 0) == other_w
                && (b & 0b000000001u32 != 0) == other_x
                && b & 0x1ffu32 == b
        }),
{
}

} // verus!
