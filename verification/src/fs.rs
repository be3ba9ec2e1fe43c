use vstd::prelude::*;
use crate::error::Vfs9Error;
use crate::file_type::FileType;
use crate::mode::FileMode;
use crate::open::OpenMode;
use crate::open::OpenSubMode;
use crate::perm::IndividualPermissions;
use crate::perm::Permissions;
use crate::qid::Qid;
use crate::qid::Stat;

verus! {

/// The maximum number of bytes guaranteed to be read from or written to a
/// file without breaking the transfer into multiple messages. Zero means
/// no guarantee; the value is advisory at this layer.
pub type IoUnit = u32;

/// The sum type a walk resolves to: one path element leads either to a
/// file or to a directory, and the tag is the sole discriminant a caller
/// may branch on.
pub enum DirectoryOrFile<F, D> {
    File(F),
    Directory(D),
}

/// Whether the given permission bits of the acting principal grant the
/// kind of I/O the submode asks for.
pub open spec fn spec_submode_permitted(sub: OpenSubMode, perm: IndividualPermissions) -> bool {
    match sub {
        OpenSubMode::Read => perm.read,
        OpenSubMode::Write => perm.write,
        OpenSubMode::ReadWrite => perm.read && perm.write,
        OpenSubMode::Execute => perm.execute,
    }
}

/// The outcome of the open-time checks of the fid state machine, evaluated
/// once, at open time: later permission changes do not affect an already
/// open fid.
///
/// Inputs: the type flags of the entity, the permission bits the acting
/// principal holds on it, whether another fid already holds this
/// exclusive-use file open, whether the principal may remove the file from
/// its parent, and the requested mode. `Ok(truncates)` grants the open and
/// says whether the content is actually truncated: a truncation request on
/// an append-only file is skipped rather than refused.
#[verifier::opaque]
pub open spec fn spec_open_decision(
    file_type: FileType,
    perm: IndividualPermissions,
    held_elsewhere: bool,
    removable: bool,
    mode: OpenMode,
) -> Result<bool, Vfs9Error> {
    if file_type.is_dir && (mode.submode.spec_writes() || mode.truncate || mode.rclose) {
        // it is illegal to write a directory, truncate it, or attempt to
        // remove it on close
        Err(Vfs9Error::IllegalOperation)
    } else if !spec_submode_permitted(mode.submode, perm) {
        Err(Vfs9Error::PermissionDenied)
    } else if mode.truncate && !perm.write {
        Err(Vfs9Error::PermissionDenied)
    } else if mode.rclose && !removable {
        Err(Vfs9Error::PermissionDenied)
    } else if file_type.is_exclusive && held_elsewhere {
        Err(Vfs9Error::ExclusiveConflict)
    } else {
        Ok(mode.truncate && !file_type.is_append_only)
    }
}

/// Runs the open-time checks of the fid state machine; see
/// `spec_open_decision` for the inputs and their order of precedence.
pub fn open_decision(
    file_type: &FileType,
    perm: &IndividualPermissions,
    held_elsewhere: bool,
    removable: bool,
    mode: &OpenMode,
) -> (r: Result<bool, Vfs9Error>)
    ensures
        r == spec_open_decision(*file_type, *perm, held_elsewhere, removable, *mode),
{
    proof {
        reveal(spec_open_decision);
    }
    let writes = match mode.submode {
        OpenSubMode::Write => true,
        OpenSubMode::ReadWrite => true,
        _ => false,
    };
    if file_type.is_dir && (writes || mode.truncate || mode.rclose) {
        return Err(Vfs9Error::IllegalOperation);
    }
    let permitted = match mode.submode {
        OpenSubMode::Read => perm.read,
        OpenSubMode::Write => perm.write,
        OpenSubMode::ReadWrite => perm.read && perm.write,
        OpenSubMode::Execute => perm.execute,
    };
    if !permitted {
        return Err(Vfs9Error::PermissionDenied);
    }
    if mode.truncate && !perm.write {
        return Err(Vfs9Error::PermissionDenied);
    }
    if mode.rclose && !removable {
        return Err(Vfs9Error::PermissionDenied);
    }
    if file_type.is_exclusive && held_elsewhere {
        return Err(Vfs9Error::ExclusiveConflict);
    }
    Ok(mode.truncate && !file_type.is_append_only)
}

/// Law: an open that asks to truncate an append-only file to which the
/// acting principal may write succeeds, and the content is not truncated,
/// so the existing length is unaltered. The other open-time checks must
/// not object: the entity is not a directory, the submode itself is
/// permitted, a remove-on-close request is backed by remove permission,
/// and no other fid holds the file exclusively.
pub proof fn lemma_truncate_append_only_skipped(
    file_type: FileType,
    perm: IndividualPermissions,
    held_elsewhere: bool,
    removable: bool,
    mode: OpenMode,
)
    requires
        file_type.is_append_only,
        !file_type.is_dir,
        perm.write,
        mode.truncate,
        spec_submode_permitted(mode.submode, perm),
        mode.rclose ==> removable,
        file_type.is_exclusive ==> !held_elsewhere,
    ensures
        spec_open_decision(file_type, perm, held_elsewhere, removable, mode)
            == Ok::<bool, Vfs9Error>(false),
{
    reveal(spec_open_decision);
}

/// A filesystem entity, either a directory or a file, as named by one fid.
pub trait FsEntity: Sized {
    /// The identity the server currently assigns to this entity.
    spec fn spec_qid(&self) -> Qid;

    /// The permissions and type flags of this entity.
    spec fn spec_mode(&self) -> FileMode;

    /// The length of the entity in bytes.
    spec fn spec_length(&self) -> u64;

    /// The name of the entity within its parent; `"/"` for the root.
    spec fn spec_name(&self) -> Seq<char>;

    /// The name of the owner.
    spec fn spec_uid(&self) -> Seq<char>;

    /// The name of the group.
    spec fn spec_gid(&self) -> Seq<char>;

    /// The name of the user who last modified the entity.
    spec fn spec_muid(&self) -> Seq<char>;

    /// A fresh, consistent snapshot of the current metadata.
    fn stat(&self) -> (r: Result<Stat, Vfs9Error>)
        ensures
            r matches Ok(s) ==> s.qid == self.spec_qid() && s.mode == self.spec_mode()
                && s.length == self.spec_length() && s.name@ == self.spec_name() && s.uid@
                == self.spec_uid() && s.gid@ == self.spec_gid() && s.muid@ == self.spec_muid(),
    ;

    /// Requests a full metadata replacement: changing `length` truncates
    /// or extends the content, changing `name` renames within the parent.
    /// The fields are accepted atomically or the call fails without
    /// partial effect; illegal combinations are rejected, not ignored.
    fn wstat(&mut self, stat: &Stat) -> (r: Result<(), Vfs9Error>)
        ensures
            r is Ok ==> final(self).spec_mode() == stat.mode
                && final(self).spec_length() == stat.length
                && final(self).spec_name() == stat.name@ && final(self).spec_uid() == stat.uid@
                && final(self).spec_gid() == stat.gid@ && final(self).spec_muid() == stat.muid@
                && final(self).spec_qid().path == old(self).spec_qid().path,
            r is Err ==> *final(self) == *old(self),
    ;
}

/// The capability surface of a directory fid.
pub trait Directory<F: File>: FsEntity {
    /// Whether this directory is the root of the hierarchy.
    spec fn spec_is_root(&self) -> bool;

    /// The names of the children of this directory.
    spec fn spec_children(&self) -> Set<Seq<char>>;

    /// Whether the child of that name is itself a directory.
    spec fn spec_child_is_dir(&self, name: Seq<char>) -> bool;

    /// The identity of the child of that name.
    spec fn spec_child_qid(&self, name: Seq<char>) -> Qid;

    /// The permissions of the child of that name.
    spec fn spec_child_perm(&self, name: Seq<char>) -> Permissions;

    /// Whether the acting principal holds write permission on this
    /// directory.
    spec fn spec_writable(&self) -> bool;

    /// Resolves one path element relative to this directory, without
    /// mutating it. `".."` names the parent; on a root directory it either
    /// fails as not found or resolves to the root itself, per implementer
    /// policy, and never to an unrelated entity. `"."` is not a protocol
    /// name and gets no special case. Any other name resolves exactly when
    /// it names a child, and to a variant of the matching kind.
    fn walk(&self, name: &str) -> (r: Result<DirectoryOrFile<F, Self>, Vfs9Error>)
        ensures
            name@ == ".."@ && self.spec_is_root() ==> (r matches Err(e) && e
                == Vfs9Error::NotFound) || (r matches Ok(x) && x matches DirectoryOrFile::Directory(
                d,
            ) && d.spec_qid() == self.spec_qid()),
            name@ != ".."@ ==> ((r is Ok) <==> self.spec_children().contains(name@)),
            name@ != ".."@ && !self.spec_children().contains(name@) ==> (r matches Err(e) && e
                == Vfs9Error::NotFound),
            name@ != ".."@ && self.spec_children().contains(name@) ==> (r matches Ok(x) && match x {
                DirectoryOrFile::File(f) => !self.spec_child_is_dir(name@) && f.spec_qid()
                    == self.spec_child_qid(name@) && f.spec_mode().permissions
                    == self.spec_child_perm(name@),
                DirectoryOrFile::Directory(d) => self.spec_child_is_dir(name@) && d.spec_qid()
                    == self.spec_child_qid(name@) && d.spec_mode().permissions
                    == self.spec_child_perm(name@),
            }),
    ;

    /// Creates a regular file under this directory, which requires write
    /// permission on it. The names `"."` and `".."` are illegal; a name
    /// already present fails. The new file's permissions are the requested
    /// bits masked by the directory's own, per `spec_mask_for_file`.
    fn create_file(&mut self, name: &str, perm: &Permissions) -> (r: Result<(), Vfs9Error>)
        ensures
            r is Ok <==> (name@ != "."@ && name@ != ".."@ && old(self).spec_writable() && !old(
                self,
            ).spec_children().contains(name@)),
            name@ == "."@ || name@ == ".."@ ==> r == Err::<(), Vfs9Error>(Vfs9Error::IllegalName),
            name@ != "."@ && name@ != ".."@ && !old(self).spec_writable() ==> r == Err::<
                (),
                Vfs9Error,
            >(Vfs9Error::PermissionDenied),
            name@ != "."@ && name@ != ".."@ && old(self).spec_writable() && old(
                self,
            ).spec_children().contains(name@) ==> r == Err::<(), Vfs9Error>(Vfs9Error::NotFound),
            r is Err ==> *final(self) == *old(self),
            r is Ok ==> final(self).spec_children() == old(self).spec_children().insert(name@)
                && !final(self).spec_child_is_dir(name@) && !final(self).spec_child_qid(
                name@,
            ).file_type.is_dir && final(self).spec_child_perm(name@)
                == perm.spec_mask_for_file(old(self).spec_mode().permissions)
                && final(self).spec_qid() == old(self).spec_qid() && final(self).spec_mode()
                == old(self).spec_mode() && final(self).spec_is_root() == old(
                self,
            ).spec_is_root(),
    ;

    /// Creates a directory under this directory; as `create_file`, but the
    /// requested bits are masked by all of this directory's permission
    /// bits, per `spec_mask_for_dir`.
    fn create_dir(&mut self, name: &str, perm: &Permissions) -> (r: Result<(), Vfs9Error>)
        ensures
            r is Ok <==> (name@ != "."@ && name@ != ".."@ && old(self).spec_writable() && !old(
                self,
            ).spec_children().contains(name@)),
            name@ == "."@ || name@ == ".."@ ==> r == Err::<(), Vfs9Error>(Vfs9Error::IllegalName),
            name@ != "."@ && name@ != ".."@ && !old(self).spec_writable() ==> r == Err::<
                (),
                Vfs9Error,
            >(Vfs9Error::PermissionDenied),
            name@ != "."@ && name@ != ".."@ && old(self).spec_writable() && old(
                self,
            ).spec_children().contains(name@) ==> r == Err::<(), Vfs9Error>(Vfs9Error::NotFound),
            r is Err ==> *final(self) == *old(self),
            r is Ok ==> final(self).spec_children() == old(self).spec_children().insert(name@)
                && final(self).spec_child_is_dir(name@) && final(self).spec_child_qid(
                name@,
            ).file_type.is_dir && final(self).spec_child_perm(name@)
                == perm.spec_mask_for_dir(old(self).spec_mode().permissions)
                && final(self).spec_qid() == old(self).spec_qid() && final(self).spec_mode()
                == old(self).spec_mode() && final(self).spec_is_root() == old(
                self,
            ).spec_is_root(),
    ;
}

/// The capability surface of a file fid: a state machine that starts
/// closed, becomes open through a successful `open`, and is clunked back
/// to closed by `remove`.
pub trait File: FsEntity {
    /// The open state of this fid: `None` while closed, otherwise the mode
    /// granted at open time.
    spec fn spec_open_mode(&self) -> Option<OpenMode>;

    /// The permission bits the acting principal holds on this file.
    spec fn spec_principal_perm(&self) -> IndividualPermissions;

    /// Whether another fid currently holds this exclusive-use file open.
    spec fn spec_held_elsewhere(&self) -> bool;

    /// Whether the acting principal may remove this file from its parent
    /// directory.
    spec fn spec_removable(&self) -> bool;

    /// The content bytes of the file.
    spec fn spec_content(&self) -> Seq<u8>;

    /// The implementer-tracked position at which the next write of an
    /// ordinary (not append-only) file lands.
    spec fn spec_position(&self) -> u64;

    /// Asks the server to remove the file and to clunk the fid: even if
    /// the removal fails, the fid always comes back closed. Removal
    /// requires write permission in the parent directory.
    fn remove(&mut self) -> (r: Result<(), Vfs9Error>)
        ensures
            final(self).spec_open_mode() is None,
            (r is Ok) <==> old(self).spec_removable(),
            r matches Err(e) ==> e == Vfs9Error::PermissionDenied,
    ;

    /// Checks permissions and prepares the fid for I/O, per
    /// `spec_open_decision`: valid only while closed; on success the fid
    /// is open under the requested mode and carries the entity's current
    /// qid plus an advisory `IoUnit`. A granted truncation empties the
    /// content; a truncation skipped for an append-only file leaves it
    /// untouched.
    fn open(&mut self, mode: OpenMode) -> (r: Result<(Qid, IoUnit), Vfs9Error>)
        requires
            old(self).spec_open_mode() is None,
        ensures
            (r is Ok) <==> spec_open_decision(
                old(self).spec_mode().file_type,
                old(self).spec_principal_perm(),
                old(self).spec_held_elsewhere(),
                old(self).spec_removable(),
                mode,
            ) is Ok,
            r matches Err(e) ==> Err::<bool, Vfs9Error>(e) == spec_open_decision(
                old(self).spec_mode().file_type,
                old(self).spec_principal_perm(),
                old(self).spec_held_elsewhere(),
                old(self).spec_removable(),
                mode,
            ) && *final(self) == *old(self),
            r matches Ok(p) ==> p.0 == old(self).spec_qid() && final(self).spec_open_mode()
                == Some(mode) && final(self).spec_mode() == old(self).spec_mode()
                && final(self).spec_qid() == old(self).spec_qid() && final(self).spec_position()
                == 0 && (if mode.truncate && !old(
                self,
            ).spec_mode().file_type.is_append_only {
                final(self).spec_content() == Seq::<u8>::empty() && final(self).spec_length() == 0
            } else {
                final(self).spec_content() == old(self).spec_content() && final(self).spec_length()
                    == old(self).spec_length()
            }),
    ;

    /// The mode under which the fid is open, or `None` while it is closed.
    /// Observation only: no side effects.
    fn mode(&self) -> (m: Option<OpenMode>)
        ensures
            m == self.spec_open_mode(),
    ;

    /// Appends to `to` up to `count` bytes of content starting `offset`
    /// bytes into the file, which must be open for reading. Returns how
    /// many bytes were transferred; fewer than `count` is legal, and zero
    /// signals end of file.
    fn read(&self, to: &mut Vec<u8>, offset: u64, count: u32) -> (r: Result<u32, Vfs9Error>)
        requires
            self.spec_open_mode() matches Some(m) && m.submode.spec_reads(),
        ensures
            r matches Ok(n) ==> n <= count && (if offset < self.spec_content().len() {
                (count > 0 ==> n > 0) && offset + n <= self.spec_content().len() && final(to)@
                    == old(to)@ + self.spec_content().subrange(offset as int, offset + n)
            } else {
                n == 0 && final(to)@ == old(to)@
            }),
            r matches Err(e) ==> e == Vfs9Error::IoFailure && final(to)@ == old(to)@,
    ;

    /// Records up to `count` bytes from the front of `from` in the file,
    /// which must be open for writing. If the file is append-only the data
    /// lands at the current end of file regardless of any position notion;
    /// otherwise it overwrites, and past the end extends, the content at
    /// the implementer-tracked position, which then advances by the bytes
    /// written. Returns how many bytes were written.
    fn write(&mut self, from: &[u8], count: u32) -> (r: Result<u32, Vfs9Error>)
        requires
            old(self).spec_open_mode() matches Some(m) && m.submode.spec_writes(),
            count as int <= from@.len(),
        ensures
            final(self).spec_open_mode() == old(self).spec_open_mode(),
            final(self).spec_mode() == old(self).spec_mode(),
            r matches Ok(n) ==> n <= count && (count > 0 ==> n > 0) && (old(
                self,
            ).spec_mode().file_type.is_append_only ==> final(self).spec_content() == old(
                self,
            ).spec_content() + from@.subrange(0, n as int) && final(self).spec_position() == old(
                self,
            ).spec_position()),
            r matches Ok(n) ==> ((!old(self).spec_mode().file_type.is_append_only && old(
                self,
            ).spec_position() <= old(self).spec_content().len()) ==> ({
                let p = old(self).spec_position() as int;
                let c = old(self).spec_content();
                final(self).spec_content() == c.subrange(0, p) + from@.subrange(0, n as int) + (
                if p + n < c.len() {
                    c.subrange(p + n, c.len() as int)
                } else {
                    Seq::<u8>::empty()
                }) && final(self).spec_position() == p + n
            })),
            r matches Err(e) ==> e == Vfs9Error::IoFailure && *final(self) == *old(self),
    ;
}

} // verus!
