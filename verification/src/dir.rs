use vstd::prelude::*;
use vstd::contrib::exec_spec::ExecSpecEq;
use crate::error::Vfs9Error;
use crate::file_type::FileType;
use crate::fs::Directory;
use crate::fs::DirectoryOrFile;
use crate::fs::FsEntity;
use crate::mem::MemFile;
use crate::mode::FileMode;
use crate::perm::Permissions;
use crate::qid::Qid;
use crate::qid::Stat;

verus! {

/// One entry in a directory listing: the name under which the child is
/// reachable, its kind, identity and permissions, and, for a regular
/// file, its content bytes.
pub struct ChildEntry {
    pub name: String,
    pub is_dir: bool,
    pub qid: Qid,
    pub perm: Permissions,
    pub content: Vec<u8>,
}

/// The entry a name resolves to in a listing: the first entry carrying
/// that name, if any.
pub open spec fn child_lookup(s: Seq<ChildEntry>, name: Seq<char>) -> Option<ChildEntry>
    decreases s.len(),
{
    if s.len() == 0 {
        None
    } else if s[0].name@ == name {
        Some(s[0])
    } else {
        child_lookup(s.subrange(1, s.len() as int), name)
    }
}

/// A scan that matched at `i`, with no match before it, found exactly the
/// entry the lookup resolves to.
proof fn lemma_child_lookup_found(s: Seq<ChildEntry>, name: Seq<char>, i: int)
    requires
        0 <= i < s.len(),
        forall|j: int| 0 <= j < i ==> s[j].name@ != name,
        s[i].name@ == name,
    ensures
        child_lookup(s, name) == Some(s[i]),
    decreases s.len(),
{
    if i > 0 {
        let t = s.subrange(1, s.len() as int);
        lemma_child_lookup_found(t, name, i - 1);
    }
}

/// A scan that matched nowhere means the lookup resolves to nothing.
proof fn lemma_child_lookup_none(s: Seq<ChildEntry>, name: Seq<char>)
    requires
        forall|j: int| 0 <= j < s.len() ==> s[j].name@ != name,
    ensures
        child_lookup(s, name) is None,
    decreases s.len(),
{
    if s.len() > 0 {
        lemma_child_lookup_none(s.subrange(1, s.len() as int), name);
    }
}

/// Appending an entry leaves every resolvable name as it was and makes
/// the new entry's name resolvable, to the new entry, where it was not.
proof fn lemma_child_lookup_push(s: Seq<ChildEntry>, e: ChildEntry, name: Seq<char>)
    ensures
        child_lookup(s.push(e), name) == (if child_lookup(s, name) is Some {
            child_lookup(s, name)
        } else if e.name@ == name {
            Some(e)
        } else {
            None::<ChildEntry>
        }),
    decreases s.len(),
{
    assert(s.push(e)[s.len() as int] == e);
    assert(s.push(e).len() == s.len() + 1);
    if s.len() == 0 {
        assert(s.push(e).subrange(1, 1) =~= Seq::<ChildEntry>::empty());
        assert(child_lookup(s, name) is None);
        if e.name@ == name {
            assert(child_lookup(s.push(e), name) == Some(e));
        } else {
            assert(child_lookup(Seq::<ChildEntry>::empty(), name) is None);
            assert(child_lookup(s.push(e), name) is None);
        }
    } else {
        let t = s.subrange(1, s.len() as int);
        assert(s.push(e)[0] == s[0]);
        assert(s.push(e).subrange(1, s.len() as int + 1) =~= t.push(e));
        lemma_child_lookup_push(t, e, name);
        if s[0].name@ == name {
            assert(child_lookup(s, name) == Some(s[0]));
            assert(child_lookup(s.push(e), name) == Some(s[0]));
        } else {
            assert(child_lookup(s, name) == child_lookup(t, name));
            assert(child_lookup(s.push(e), name) == child_lookup(t.push(e), name));
        }
    }
}

/// Whether two strings spell the same sequence of characters.
fn str_eq(a: &str, b: &str) -> (r: bool)
    ensures
        r == (a@ == b@),
{
    <&str as ExecSpecEq>::exec_eq(a, b)
}

/// A byte-for-byte copy of a content buffer.
fn copy_bytes(v: &Vec<u8>) -> (r: Vec<u8>)
    ensures
        r@ == v@,
{
    let n = v.len();
    let mut r: Vec<u8> = Vec::new();
    let mut i: usize = 0;
    while i < n
        invariant
            n == v@.len(),
            i <= n,
            r@ == v@.subrange(0, i as int),
        decreases n - i,
    {
        let b = v[i];
        r.push(b);
        proof {
            assert(v@.subrange(0, i + 1) =~= v@.subrange(0, i as int).push(v@[i as int]));
        }
        i += 1;
    }
    proof {
        assert(v@.subrange(0, n as int) =~= v@);
    }
    r
}

/// An in-memory directory fid: the reference instance of the `Directory`
/// capability, holding its listing flat as `ChildEntry` values. The
/// acting principal is taken to be the directory's owner. Walking to a
/// child directory yields a fresh handle carrying the child's identity
/// and permissions, with an empty listing of its own: in this model each
/// directory owns exactly one level of the hierarchy.
pub struct MemDir {
    pub qid: Qid,
    pub mode: FileMode,
    pub name: String,
    pub uid: String,
    pub gid: String,
    pub muid: String,
    pub atime: u32,
    pub mtime: u32,
    pub is_root: bool,
    pub children: Vec<ChildEntry>,
    /// The path component the next created child receives; creation keeps
    /// it fresh by counting upward.
    pub next_path: u64,
}

impl FsEntity for MemDir {
    open spec fn spec_qid(&self) -> Qid {
        self.qid
    }

    open spec fn spec_mode(&self) -> FileMode {
        self.mode
    }

    open spec fn spec_length(&self) -> u64 {
        0
    }

    open spec fn spec_name(&self) -> Seq<char> {
        self.name@
    }

    open spec fn spec_uid(&self) -> Seq<char> {
        self.uid@
    }

    open spec fn spec_gid(&self) -> Seq<char> {
        self.gid@
    }

    open spec fn spec_muid(&self) -> Seq<char> {
        self.muid@
    }

    fn stat(&self) -> (r: Result<Stat, Vfs9Error>)
        ensures
            r is Ok,
    {
        Ok(
            Stat {
                type_: 0,
                dev: 0,
                qid: self.qid,
                mode: self.mode,
                atime: self.atime,
                mtime: self.mtime,
                length: 0,
                name: self.name.clone(),
                uid: self.uid.clone(),
                gid: self.gid.clone(),
                muid: self.muid.clone(),
            },
        )
    }

    fn wstat(&mut self, stat: &Stat) -> (r: Result<(), Vfs9Error>)
        ensures
            r is Ok <==> (stat.mode.file_type.is_dir && stat.length == 0 && (old(self).is_root
                ==> stat.name@ == "/"@)),
            r matches Err(e) ==> e == Vfs9Error::IllegalOperation,
    {
        if !stat.mode.file_type.is_dir {
            // the directory flag cannot be cleared on a directory
            return Err(Vfs9Error::IllegalOperation);
        }
        if stat.length != 0 {
            // a directory carries no byte length of its own
            return Err(Vfs9Error::IllegalOperation);
        }
        if self.is_root && !str_eq(stat.name.as_str(), "/") {
            // the root cannot be renamed away from "/"
            return Err(Vfs9Error::IllegalOperation);
        }
        self.mode = stat.mode;
        self.name = stat.name.clone();
        self.uid = stat.uid.clone();
        self.gid = stat.gid.clone();
        self.muid = stat.muid.clone();
        self.atime = stat.atime;
        self.mtime = stat.mtime;
        Ok(())
    }
}

impl Directory<MemFile> for MemDir {
    open spec fn spec_is_root(&self) -> bool {
        self.is_root
    }

    open spec fn spec_children(&self) -> Set<Seq<char>> {
        Set::new(|n: Seq<char>| child_lookup(self.children@, n) is Some)
    }

    open spec fn spec_child_is_dir(&self, name: Seq<char>) -> bool {
        child_lookup(self.children@, name)->Some_0.is_dir
    }

    open spec fn spec_child_qid(&self, name: Seq<char>) -> Qid {
        child_lookup(self.children@, name)->Some_0.qid
    }

    open spec fn spec_child_perm(&self, name: Seq<char>) -> Permissions {
        child_lookup(self.children@, name)->Some_0.perm
    }

    open spec fn spec_writable(&self) -> bool {
        self.mode.permissions.owner.write
    }

    fn walk(&self, name: &str) -> (r: Result<DirectoryOrFile<MemFile, MemDir>, Vfs9Error>)
        ensures
            name@ == ".."@ ==> (r matches Err(e) && e == Vfs9Error::NotFound),
    {
        if str_eq(name, "..") {
            // this model keeps no parent pointers: ".." is not resolvable,
            // on the root and elsewhere
            return Err(Vfs9Error::NotFound);
        }
        let n = self.children.len();
        let mut i: usize = 0;
        while i < n
            invariant
                name@ != ".."@,
                n == self.children@.len(),
                i <= n,
                forall|j: int| 0 <= j < i ==> self.children@[j].name@ != name@,
            decreases n - i,
        {
            if str_eq(name, self.children[i].name.as_str()) {
                proof {
                    lemma_child_lookup_found(self.children@, name@, i as int);
                }
                let e = &self.children[i];
                let child_mode = FileMode { permissions: e.perm, file_type: e.qid.file_type };
                if e.is_dir {
                    return Ok(
                        DirectoryOrFile::Directory(
                            MemDir {
                                qid: e.qid,
                                mode: child_mode,
                                name: e.name.clone(),
                                uid: self.uid.clone(),
                                gid: self.gid.clone(),
                                muid: self.muid.clone(),
                                atime: self.atime,
                                mtime: self.mtime,
                                is_root: false,
                                children: Vec::new(),
                                next_path: 0,
                            },
                        ),
                    );
                } else {
                    return Ok(
                        DirectoryOrFile::File(
                            MemFile {
                                qid: e.qid,
                                mode: child_mode,
                                name: e.name.clone(),
                                uid: self.uid.clone(),
                                gid: self.gid.clone(),
                                muid: self.muid.clone(),
                                atime: self.atime,
                                mtime: self.mtime,
                                content: copy_bytes(&e.content),
                                pos: 0,
                                open_as: None,
                                held_elsewhere: false,
                                removable: self.mode.permissions.owner.write,
                            },
                        ),
                    );
                }
            }
            i += 1;
        }
        proof {
            lemma_child_lookup_none(self.children@, name@);
        }
        Err(Vfs9Error::NotFound)
    }

    fn create_file(&mut self, name: &str, perm: &Permissions) -> (r: Result<(), Vfs9Error>)
        ensures
            r is Ok ==> final(self).spec_child_qid(name@) == (Qid {
                file_type: FileType {
                    is_dir: false,
                    is_append_only: false,
                    is_exclusive: false,
                    is_auth: false,
                    is_temporary: false,
                },
                version: 0,
                path: old(self).next_path,
            }) && (old(self).next_path < u64::MAX ==> final(self).next_path == old(self).next_path
                + 1),
    {
        if str_eq(name, ".") || str_eq(name, "..") {
            return Err(Vfs9Error::IllegalName);
        }
        if !self.mode.permissions.owner.write {
            return Err(Vfs9Error::PermissionDenied);
        }
        if self.contains_child(name) {
            return Err(Vfs9Error::NotFound);
        }
        let effective = perm.mask_for_file(&self.mode.permissions);
        let entry = ChildEntry {
            name: copy_str(name),
            is_dir: false,
            qid: Qid {
                file_type: FileType {
                    is_dir: false,
                    is_append_only: false,
                    is_exclusive: false,
                    is_auth: false,
                    is_temporary: false,
                },
                version: 0,
                path: self.next_path,
            },
            perm: effective,
            content: Vec::new(),
        };
        let ghost prior = self.children@;
        self.children.push(entry);
        // the counter saturates at the machine limit rather than wrap and
        // reuse a path that may still name a live child
        if self.next_path < u64::MAX {
            self.next_path = self.next_path + 1;
        }
        proof {
            assert forall|m: Seq<char>|
                child_lookup(self.children@, m) is Some == (child_lookup(prior, m) is Some || m
                    == name@) by {
                lemma_child_lookup_push(prior, entry, m);
            }
            lemma_child_lookup_push(prior, entry, name@);
            assert(self.spec_children() =~= old(self).spec_children().insert(name@));
        }
        Ok(())
    }

    fn create_dir(&mut self, name: &str, perm: &Permissions) -> (r: Result<(), Vfs9Error>)
        ensures
            r is Ok ==> final(self).spec_child_qid(name@) == (Qid {
                file_type: FileType {
                    is_dir: true,
                    is_append_only: false,
                    is_exclusive: false,
                    is_auth: false,
                    is_temporary: false,
                },
                version: 0,
                path: old(self).next_path,
            }) && (old(self).next_path < u64::MAX ==> final(self).next_path == old(self).next_path
                + 1),
    {
        if str_eq(name, ".") || str_eq(name, "..") {
            return Err(Vfs9Error::IllegalName);
        }
        if !self.mode.permissions.owner.write {
            return Err(Vfs9Error::PermissionDenied);
        }
        if self.contains_child(name) {
            return Err(Vfs9Error::NotFound);
        }
        let effective = perm.mask_for_dir(&self.mode.permissions);
        let entry = ChildEntry {
            name: copy_str(name),
            is_dir: true,
            qid: Qid {
                file_type: FileType {
                    is_dir: true,
                    is_append_only: false,
                    is_exclusive: false,
                    is_auth: false,
                    is_temporary: false,
                },
                version: 0,
                path: self.next_path,
            },
            perm: effective,
            content: Vec::new(),
        };
        let ghost prior = self.children@;
        self.children.push(entry);
        // the counter saturates at the machine limit rather than wrap and
        // reuse a path that may still name a live child
        if self.next_path < u64::MAX {
            self.next_path = self.next_path + 1;
        }
        proof {
            assert forall|m: Seq<char>|
                child_lookup(self.children@, m) is Some == (child_lookup(prior, m) is Some || m
                    == name@) by {
                lemma_child_lookup_push(prior, entry, m);
            }
            lemma_child_lookup_push(prior, entry, name@);
            assert(self.spec_children() =~= old(self).spec_children().insert(name@));
        }
        Ok(())
    }
}

impl MemDir {
    /// Whether the listing already carries a child of that name.
    pub fn contains_child(&self, name: &str) -> (b: bool)
        ensures
            b == self.spec_children().contains(name@),
    {
        let n = self.children.len();
        let mut i: usize = 0;
        while i < n
            invariant
                n == self.children@.len(),
                i <= n,
                forall|j: int| 0 <= j < i ==> self.children@[j].name@ != name@,
            decreases n - i,
        {
            if str_eq(name, self.children[i].name.as_str()) {
                proof {
                    lemma_child_lookup_found(self.children@, name@, i as int);
                }
                return true;
            }
            i += 1;
        }
        proof {
            lemma_child_lookup_none(self.children@, name@);
        }
        false
    }
}

/// An owned copy of a borrowed name.
fn copy_str(s: &str) -> (r: String)
    ensures
        r@ == s@,
{
    String::from_str(s)
}

} // verus!
