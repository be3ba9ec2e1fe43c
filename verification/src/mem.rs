use vstd::prelude::*;
use crate::error::Vfs9Error;
use crate::fs::spec_open_decision;
use crate::fs::open_decision;
use crate::fs::FsEntity;
use crate::fs::File;
use crate::fs::IoUnit;
use crate::mode::FileMode;
use crate::open::OpenMode;
use crate::perm::IndividualPermissions;
use crate::qid::Qid;
use crate::qid::Stat;

verus! {

/// An in-memory file fid: the reference instance of the `File` state
/// machine, with the content held as plain bytes. The acting principal is
/// taken to be the file's owner, so the permission bits checked at open
/// time are the owner bits of the mode word. Whether another fid holds
/// the file open, and whether the principal may remove it from its parent,
/// are server knowledge and come in as plain fields; a server derives
/// them from its `ExclusionRegistry` and the parent's permissions.
pub struct MemFile {
    pub qid: Qid,
    pub mode: FileMode,
    pub name: String,
    pub uid: String,
    pub gid: String,
    pub muid: String,
    pub atime: u32,
    pub mtime: u32,
    pub content: Vec<u8>,
    /// Where the next write of an ordinary file lands; reset by `open`.
    pub pos: usize,
    pub open_as: Option<OpenMode>,
    pub held_elsewhere: bool,
    pub removable: bool,
}

impl FsEntity for MemFile {
    open spec fn spec_qid(&self) -> Qid {
        self.qid
    }

    open spec fn spec_mode(&self) -> FileMode {
        self.mode
    }

    open spec fn spec_length(&self) -> u64 {
        self.content@.len() as u64
    }

    open spec fn spec_name(&self) -> Seq<char> {
        self.name@
    }

    open spec fn spec_uid(&self) -> Seq<char> {
        self.uid@
    }

    open spec fn spec_gid(&self) -> Seq<char> {
        self.gid@
    }

    open spec fn spec_muid(&self) -> Seq<char> {
        self.muid@
    }

    fn stat(&self) -> (r: Result<Stat, Vfs9Error>)
        ensures
            r is Ok,
    {
        Ok(
            Stat {
                type_: 0,
                dev: 0,
                qid: self.qid,
                mode: self.mode,
                atime: self.atime,
                mtime: self.mtime,
                length: self.content.len() as u64,
                name: self.name.clone(),
                uid: self.uid.clone(),
                gid: self.gid.clone(),
                muid: self.muid.clone(),
            },
        )
    }

    fn wstat(&mut self, stat: &Stat) -> (r: Result<(), Vfs9Error>)
        ensures
            r is Ok <==> (!stat.mode.file_type.is_dir && stat.length <= usize::MAX as u64),
            r matches Err(e) ==> e == Vfs9Error::IllegalOperation,
    {
        if stat.mode.file_type.is_dir {
            // a plain file cannot be turned into a directory
            return Err(Vfs9Error::IllegalOperation);
        }
        if stat.length > usize::MAX as u64 {
            return Err(Vfs9Error::IllegalOperation);
        }
        let target = stat.length as usize;
        if target <= self.content.len() {
            self.content.truncate(target);
        } else {
            self.content.resize(target, 0u8);
        }
        self.mode = stat.mode;
        self.name = stat.name.clone();
        self.uid = stat.uid.clone();
        self.gid = stat.gid.clone();
        self.muid = stat.muid.clone();
        self.atime = stat.atime;
        self.mtime = stat.mtime;
        Ok(())
    }
}

impl File for MemFile {
    open spec fn spec_open_mode(&self) -> Option<OpenMode> {
        self.open_as
    }

    open spec fn spec_principal_perm(&self) -> IndividualPermissions {
        self.mode.permissions.owner
    }

    open spec fn spec_held_elsewhere(&self) -> bool {
        self.held_elsewhere
    }

    open spec fn spec_removable(&self) -> bool {
        self.removable
    }

    open spec fn spec_content(&self) -> Seq<u8> {
        self.content@
    }

    open spec fn spec_position(&self) -> u64 {
        self.pos as u64
    }

    fn remove(&mut self) -> (r: Result<(), Vfs9Error>) {
        self.open_as = None;
        if self.removable {
            Ok(())
        } else {
            Err(Vfs9Error::PermissionDenied)
        }
    }

    #[verifier::rlimit(100)]
    fn open(&mut self, mode: OpenMode) -> (r: Result<(Qid, IoUnit), Vfs9Error>) {
        let perm = self.mode.permissions.owner;
        let decision = open_decision(
            &self.mode.file_type,
            &perm,
            self.held_elsewhere,
            self.removable,
            &mode,
        );
        match decision {
            Err(e) => Err(e),
            Ok(truncates) => {
                proof {
                    reveal(spec_open_decision);
                }
                if truncates {
                    self.content.clear();
                }
                self.pos = 0;
                self.open_as = Some(mode);
                Ok((self.qid, 0))
            },
        }
    }

    fn mode(&self) -> (m: Option<OpenMode>) {
        self.open_as
    }

    fn read(&self, to: &mut Vec<u8>, offset: u64, count: u32) -> (r: Result<u32, Vfs9Error>)
        ensures
            r is Ok,
    {
        let len = self.content.len();
        if offset >= len as u64 {
            return Ok(0);
        }
        let start = offset as usize;
        let avail = len - start;
        let take: usize = if (count as usize) < avail {
            count as usize
        } else {
            avail
        };
        let ghost prefix = to@;
        let mut i: usize = 0;
        while i < take
            invariant
                start + take <= self.content@.len(),
                self.content@.len() <= usize::MAX,
                i <= take,
                to@ == prefix + self.content@.subrange(start as int, start + i),
            decreases take - i,
        {
            let b = self.content[start + i];
            to.push(b);
            proof {
                assert(self.content@.subrange(start as int, start + i + 1)
                    =~= self.content@.subrange(start as int, start + i).push(
                    self.content@[start + i],
                ));
            }
            i += 1;
        }
        Ok(take as u32)
    }

    fn write(&mut self, from: &[u8], count: u32) -> (r: Result<u32, Vfs9Error>)
        ensures
            r == Ok::<u32, Vfs9Error>(count),
            old(self).mode.file_type.is_append_only ==> final(self).content@ == old(self).content@
                + from@.subrange(0, count as int) && final(self).pos == old(self).pos,
            !old(self).mode.file_type.is_append_only ==> ({
                // the position is clamped to the end of the content first
                let p = if old(self).pos as int <= old(self).content@.len() {
                    old(self).pos as int
                } else {
                    old(self).content@.len() as int
                };
                let c = old(self).content@;
                final(self).content@ == c.subrange(0, p) + from@.subrange(0, count as int) + (
                if p + count < c.len() {
                    c.subrange(p + count, c.len() as int)
                } else {
                    Seq::<u8>::empty()
                }) && final(self).pos == p + count
            }),
    {
        let take = count as usize;
        if self.mode.file_type.is_append_only {
            let ghost prefix = self.content@;
            let mut i: usize = 0;
            while i < take
                invariant
                    take <= from@.len(),
                    i <= take,
                    self.content@ == prefix + from@.subrange(0, i as int),
                    self.open_as == old(self).open_as,
                    self.mode == old(self).mode,
                    self.pos == old(self).pos,
                decreases take - i,
            {
                let b = from[i];
                self.content.push(b);
                proof {
                    assert(from@.subrange(0, i + 1) =~= from@.subrange(0, i as int).push(
                        from@[i as int],
                    ));
                }
                i += 1;
            }
            return Ok(count);
        }
        let len = self.content.len();
        let p: usize = if self.pos <= len {
            self.pos
        } else {
            len
        };
        let ghost c = self.content@;
        let mut i: usize = 0;
        let mut idx: usize = p;
        while i < take
            invariant
                take <= from@.len(),
                i <= take,
                idx == p + i,
                p <= c.len() <= usize::MAX,
                self.content@.len() == (if p + i <= c.len() {
                    c.len() as int
                } else {
                    p + i
                }),
                self.content@ == c.subrange(0, p as int) + from@.subrange(0, i as int) + (if p + i
                    < c.len() {
                    c.subrange(p + i, c.len() as int)
                } else {
                    Seq::<u8>::empty()
                }),
                self.open_as == old(self).open_as,
                self.mode == old(self).mode,
            decreases take - i,
        {
            let b = from[i];
            let ghost before = self.content@;
            if idx < self.content.len() {
                self.content[idx] = b;
                proof {
                    assert(self.content@ =~= c.subrange(0, p as int) + from@.subrange(0, i + 1) + (
                    if p + i + 1 < c.len() {
                        c.subrange(p + i + 1, c.len() as int)
                    } else {
                        Seq::<u8>::empty()
                    }));
                }
            } else {
                self.content.push(b);
                proof {
                    assert(self.content@ =~= c.subrange(0, p as int) + from@.subrange(0, i + 1) + (
                    if p + i + 1 < c.len() {
                        c.subrange(p + i + 1, c.len() as int)
                    } else {
                        Seq::<u8>::empty()
                    }));
                }
            }
            let filled = self.content.len();
            proof {
                assert(idx < filled);
            }
            i += 1;
            idx += 1;
        }
        self.pos = idx;
        Ok(count)
    }
}

} // verus!
