use vstd::prelude::*;
use crate::file_type::FileType;
use crate::mode::FileMode;

verus! {

/// The server's unique identification for the file being accessed: two
/// files on the same server hierarchy are the same if and only if their
/// qids are the same. (A client may have several fids pointing at one file
/// and hence at one qid.)
#[derive(Clone, Copy, Debug, PartialEq, Eq, Structural)]
#[verifier::ext_equal]
pub struct Qid {
    /// The type of qid: whether this is a file, a directory, an
    /// append-only file, and so on. The flags reuse the type-byte codec on
    /// a standalone byte.
    pub file_type: FileType,

    /// A version number for the file, typically incremented every time it
    /// is modified.
    pub version: u32,

    /// An integer unique among all files in the hierarchy for the lifetime
    /// of the object it names. If a file is deleted and recreated with the
    /// same name in the same directory, the old and new path components
    /// must differ.
    pub path: u64,
}

/// Law: two qids are equal exactly when their whole identity triple
/// matches; a difference in any one of the type flags, the version or the
/// path makes them unequal.
pub proof fn lemma_qid_equality(a: Qid, b: Qid)
    ensures
        (a == b) <==> (a.file_type == b.file_type && a.version == b.version && a.path == b.path),
{
    if a.file_type == b.file_type && a.version == b.version && a.path == b.path {
        assert(a =~= b);
    }
}

/// The metadata snapshot of one entity, as returned by `stat`. A value
/// type: it describes the entity at the moment of the call and is never a
/// live handle.
#[derive(Debug)]
pub struct Stat {
    /// For kernel use.
    pub type_: u16,

    /// For kernel use.
    pub dev: u32,

    pub qid: Qid,

    /// Permissions and flags.
    pub mode: FileMode,

    /// Last access time.
    pub atime: u32,

    /// Last modification time.
    pub mtime: u32,

    /// Length of the file in bytes.
    pub length: u64,

    /// File name; must be `"/"` if the file is the root directory of the
    /// server.
    pub name: String,

    /// Owner name.
    pub uid: String,

    /// Group name.
    pub gid: String,

    /// Name of the user who last modified the file.
    pub muid: String,
}

impl PartialEq for Stat {
    fn eq(&self, other: &Stat) -> (r: bool) {
        self.type_ == other.type_ && self.dev == other.dev && self.qid == other.qid && self.mode
            == other.mode && self.atime == other.atime && self.mtime == other.mtime && self.length
            == other.length && self.name == other.name && self.uid == other.uid && self.gid
            == other.gid && self.muid == other.muid
    }
}

impl vstd::std_specs::cmp::PartialEqSpecImpl for Stat {
    open spec fn obeys_eq_spec() -> bool {
        true
    }

    open spec fn eq_spec(&self, other: &Stat) -> bool {
        self.type_ == other.type_ && self.dev == other.dev && self.qid == other.qid && self.mode
            == other.mode && self.atime == other.atime && self.mtime == other.mtime && self.length
            == other.length && self.name@ == other.name@ && self.uid@ == other.uid@ && self.gid@
            == other.gid@ && self.muid@ == other.muid@
    }
}

} // verus!
