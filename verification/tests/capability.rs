use vfs9::ChildEntry;
use vfs9::Directory;
use vfs9::DirectoryOrFile;
use vfs9::File;
use vfs9::FileMode;
use vfs9::FileType;
use vfs9::FsEntity;
use vfs9::MemDir;
use vfs9::MemFile;
use vfs9::OpenMode;
use vfs9::OpenSubMode;
use vfs9::Permissions;
use vfs9::Qid;
use vfs9::Vfs9Error;

fn plain_qid(type_bits: u8, path: u64) -> Qid {
    Qid { file_type: FileType::from_bits(type_bits), version: 0, path }
}

fn mem_file(type_bits: u8, perm_bits: u32, content: Vec<u8>) -> MemFile {
    MemFile {
        qid: plain_qid(type_bits, 1),
        mode: FileMode {
            permissions: Permissions::from_bits(perm_bits),
            file_type: FileType::from_bits(type_bits),
        },
        name: String::from("f"),
        uid: String::from("alice"),
        gid: String::from("staff"),
        muid: String::from("alice"),
        atime: 0,
        mtime: 0,
        content,
        pos: 0,
        open_as: None,
        held_elsewhere: false,
        removable: true,
    }
}

fn mem_dir(perm_bits: u32, is_root: bool) -> MemDir {
    MemDir {
        qid: plain_qid(0x80, 0),
        mode: FileMode {
            permissions: Permissions::from_bits(perm_bits),
            file_type: FileType::from_bits(0x80),
        },
        name: String::from(if is_root { "/" } else { "d" }),
        uid: String::from("alice"),
        gid: String::from("staff"),
        muid: String::from("alice"),
        atime: 0,
        mtime: 0,
        is_root,
        children: Vec::new(),
        next_path: 100,
    }
}

fn open_mode(submode: OpenSubMode, truncate: bool, rclose: bool) -> OpenMode {
    OpenMode { submode, truncate, rclose }
}

#[test]
fn open_transitions_closed_to_open() {
    let mut f = mem_file(0x00, 0o644, vec![1, 2, 3]);
    assert_eq!(f.mode(), None);
    let r = f.open(open_mode(OpenSubMode::Read, false, false));
    let (qid, iounit) = r.expect("a readable file must open for read");
    assert_eq!(qid, plain_qid(0x00, 1));
    assert_eq!(iounit, 0);
    assert_eq!(f.mode(), Some(open_mode(OpenSubMode::Read, false, false)));
}

#[test]
fn open_without_the_needed_bit_is_denied() {
    let mut f = mem_file(0x00, 0o244, vec![]);
    let r = f.open(open_mode(OpenSubMode::Read, false, false));
    assert_eq!(r, Err(Vfs9Error::PermissionDenied));
    assert_eq!(f.mode(), None);
}

#[test]
fn open_truncate_needs_write_permission() {
    let mut f = mem_file(0x00, 0o444, vec![1]);
    let r = f.open(open_mode(OpenSubMode::Read, true, false));
    assert_eq!(r, Err(Vfs9Error::PermissionDenied));
}

#[test]
fn open_truncate_empties_an_ordinary_file() {
    let mut f = mem_file(0x00, 0o644, vec![1, 2, 3]);
    f.open(open_mode(OpenSubMode::Write, true, false)).expect("writable file must open");
    let s = f.stat().expect("stat must succeed");
    assert_eq!(s.length, 0);
}

#[test]
fn open_truncate_skips_an_append_only_file() {
    // 0x40 marks the file append-only; write permission is granted, so the
    // open succeeds, but the existing length is untouched
    let mut f = mem_file(0x40, 0o644, vec![1, 2, 3]);
    let r = f.open(open_mode(OpenSubMode::Write, true, false));
    assert!(r.is_ok());
    assert_eq!(f.mode(), Some(open_mode(OpenSubMode::Write, true, false)));
    let s = f.stat().expect("stat must succeed");
    assert_eq!(s.length, 3);
}

#[test]
fn open_exclusive_file_held_elsewhere_conflicts() {
    let mut f = mem_file(0x20, 0o644, vec![]);
    f.held_elsewhere = true;
    let r = f.open(open_mode(OpenSubMode::Read, false, false));
    assert_eq!(r, Err(Vfs9Error::ExclusiveConflict));
}

#[test]
fn open_directory_for_writing_is_illegal() {
    let mut f = mem_file(0x80, 0o777, vec![]);
    assert_eq!(
        f.open(open_mode(OpenSubMode::Write, false, false)),
        Err(Vfs9Error::IllegalOperation)
    );
    assert_eq!(
        f.open(open_mode(OpenSubMode::Read, true, false)),
        Err(Vfs9Error::IllegalOperation)
    );
    assert_eq!(
        f.open(open_mode(OpenSubMode::Read, false, true)),
        Err(Vfs9Error::IllegalOperation)
    );
}

#[test]
fn open_rclose_needs_remove_permission() {
    let mut f = mem_file(0x00, 0o644, vec![]);
    f.removable = false;
    let r = f.open(open_mode(OpenSubMode::Read, false, true));
    assert_eq!(r, Err(Vfs9Error::PermissionDenied));
}

#[test]
fn read_hands_back_the_requested_window() {
    let mut f = mem_file(0x00, 0o644, vec![10, 20, 30, 40]);
    f.open(open_mode(OpenSubMode::Read, false, false)).expect("open");
    let mut sink: Vec<u8> = Vec::new();
    assert_eq!(f.read(&mut sink, 1, 2), Ok(2));
    assert_eq!(sink, vec![20, 30]);
    // short read at the tail, zero at end of file
    assert_eq!(f.read(&mut sink, 3, 9), Ok(1));
    assert_eq!(sink, vec![20, 30, 40]);
    assert_eq!(f.read(&mut sink, 4, 9), Ok(0));
    assert_eq!(f.read(&mut sink, 100, 1), Ok(0));
}

#[test]
fn write_appends_to_an_append_only_file() {
    let mut f = mem_file(0x40, 0o644, vec![1, 2]);
    f.open(open_mode(OpenSubMode::Write, false, false)).expect("open");
    assert_eq!(f.write(&[7, 8, 9], 2), Ok(2));
    assert_eq!(f.content, vec![1, 2, 7, 8]);
    let s = f.stat().expect("stat");
    assert_eq!(s.length, 4);
}

#[test]
fn write_lands_at_the_tracked_position() {
    let mut f = mem_file(0x00, 0o644, vec![1, 2, 3]);
    f.open(open_mode(OpenSubMode::Write, false, false)).expect("open");
    // a fresh open starts writing at the beginning
    assert_eq!(f.write(&[7, 8], 2), Ok(2));
    assert_eq!(f.content, vec![7, 8, 3]);
    assert_eq!(f.pos, 2);
    // the next write continues where the last one ended, extending the file
    assert_eq!(f.write(&[9, 10], 2), Ok(2));
    assert_eq!(f.content, vec![7, 8, 9, 10]);
    assert_eq!(f.pos, 4);
}

#[test]
fn append_only_write_ignores_the_position() {
    let mut f = mem_file(0x40, 0o644, vec![1, 2]);
    f.open(open_mode(OpenSubMode::Write, false, false)).expect("open");
    f.pos = 1;
    assert_eq!(f.write(&[9], 1), Ok(1));
    assert_eq!(f.content, vec![1, 2, 9]);
    assert_eq!(f.pos, 1);
}

#[test]
fn remove_always_clunks_the_fid() {
    let mut f = mem_file(0x00, 0o644, vec![]);
    f.open(open_mode(OpenSubMode::Read, false, false)).expect("open");
    f.removable = false;
    assert_eq!(f.remove(), Err(Vfs9Error::PermissionDenied));
    // the removal failed, yet the fid is closed
    assert_eq!(f.mode(), None);
    let mut g = mem_file(0x00, 0o644, vec![]);
    assert_eq!(g.remove(), Ok(()));
    assert_eq!(g.mode(), None);
}

#[test]
fn stat_reports_the_current_metadata() {
    let f = mem_file(0x40, 0o640, vec![5, 6]);
    let s = f.stat().expect("stat");
    assert_eq!(s.qid, plain_qid(0x40, 1));
    assert_eq!(s.mode.permissions.to_bits(), 0o640);
    assert!(s.mode.file_type.is_append_only);
    assert_eq!(s.length, 2);
    assert_eq!(s.name, "f");
    assert_eq!(s.uid, "alice");
}

#[test]
fn wstat_replaces_metadata_and_resizes() {
    let mut f = mem_file(0x00, 0o644, vec![1, 2, 3]);
    let mut s = f.stat().expect("stat");
    s.length = 1;
    s.name = String::from("renamed");
    s.mode = FileMode {
        permissions: Permissions::from_bits(0o600),
        file_type: FileType::from_bits(0x00),
    };
    assert_eq!(f.wstat(&s), Ok(()));
    let t = f.stat().expect("stat");
    assert_eq!(t.length, 1);
    assert_eq!(t.name, "renamed");
    assert_eq!(t.mode.permissions.to_bits(), 0o600);
    // extension pads with zero bytes
    s.length = 4;
    assert_eq!(f.wstat(&s), Ok(()));
    assert_eq!(f.content, vec![1, 0, 0, 0]);
}

#[test]
fn wstat_replaces_the_identity_strings() {
    let mut f = mem_file(0x00, 0o644, vec![]);
    let mut s = f.stat().expect("stat");
    s.uid = String::from("bob");
    s.gid = String::from("ops");
    s.muid = String::from("bob");
    assert_eq!(f.wstat(&s), Ok(()));
    let t = f.stat().expect("stat");
    assert_eq!(t.uid, "bob");
    assert_eq!(t.gid, "ops");
    assert_eq!(t.muid, "bob");
}

#[test]
fn stat_snapshots_compare_by_value() {
    let f = mem_file(0x00, 0o644, vec![1]);
    let a = f.stat().expect("stat");
    let b = f.stat().expect("stat");
    assert_eq!(a, b);
    let g = mem_file(0x00, 0o600, vec![1]);
    let c = g.stat().expect("stat");
    assert_ne!(a, c);
}

#[test]
fn wstat_rejects_turning_a_file_into_a_directory() {
    let mut f = mem_file(0x00, 0o644, vec![1]);
    let mut s = f.stat().expect("stat");
    s.mode = FileMode {
        permissions: Permissions::from_bits(0o644),
        file_type: FileType::from_bits(0x80),
    };
    assert_eq!(f.wstat(&s), Err(Vfs9Error::IllegalOperation));
    // no partial effect
    assert_eq!(f.stat().expect("stat").length, 1);
}

#[test]
fn walk_dotdot_on_the_root_is_not_found() {
    let root = mem_dir(0o755, true);
    match root.walk("..") {
        Err(e) => assert_eq!(e, Vfs9Error::NotFound),
        Ok(_) => panic!("this model resolves no parent for the root"),
    }
}

#[test]
fn walk_dotdot_off_the_root_is_not_found_in_this_model() {
    let below = mem_dir(0o755, false);
    match below.walk("..") {
        Err(e) => assert_eq!(e, Vfs9Error::NotFound),
        Ok(_) => panic!("this model keeps no parent pointers"),
    }
}

#[test]
fn walk_dot_is_not_special() {
    let root = mem_dir(0o755, true);
    match root.walk(".") {
        Err(e) => assert_eq!(e, Vfs9Error::NotFound),
        Ok(_) => panic!("'.' is not a protocol name"),
    }
}

#[test]
fn walk_resolves_children_by_kind() {
    let mut root = mem_dir(0o755, true);
    root.children.push(ChildEntry {
        name: String::from("notes"),
        is_dir: false,
        qid: plain_qid(0x00, 11),
        perm: Permissions::from_bits(0o644),
        content: vec![9],
    });
    root.children.push(ChildEntry {
        name: String::from("sub"),
        is_dir: true,
        qid: plain_qid(0x80, 12),
        perm: Permissions::from_bits(0o755),
        content: Vec::new(),
    });
    match root.walk("notes") {
        Ok(DirectoryOrFile::File(f)) => {
            assert_eq!(f.qid, plain_qid(0x00, 11));
            assert_eq!(f.content, vec![9]);
            assert_eq!(f.mode.permissions.to_bits(), 0o644);
        },
        _ => panic!("'notes' must resolve to a file"),
    }
    match root.walk("sub") {
        Ok(DirectoryOrFile::Directory(d)) => {
            assert_eq!(d.qid, plain_qid(0x80, 12));
            assert!(!d.is_root);
        },
        _ => panic!("'sub' must resolve to a directory"),
    }
    match root.walk("absent") {
        Err(e) => assert_eq!(e, Vfs9Error::NotFound),
        Ok(_) => panic!("an absent name must not resolve"),
    }
}

#[test]
fn create_file_masks_the_requested_permissions() {
    let mut dir = mem_dir(0o755, true);
    assert_eq!(dir.create_file("x", &Permissions::from_bits(0o777)), Ok(()));
    match dir.walk("x") {
        Ok(DirectoryOrFile::File(f)) => {
            // 0o777 & (!0o666 | (0o755 & 0o666)) = 0o755
            assert_eq!(f.mode.permissions.to_bits(), 0o755);
            assert!(!f.qid.file_type.is_dir);
        },
        _ => panic!("the created name must resolve to a file"),
    }
}

#[test]
fn create_rejects_protocol_names_and_duplicates() {
    let mut dir = mem_dir(0o755, true);
    assert_eq!(dir.create_file(".", &Permissions::from_bits(0o644)), Err(Vfs9Error::IllegalName));
    assert_eq!(dir.create_file("..", &Permissions::from_bits(0o644)), Err(Vfs9Error::IllegalName));
    assert_eq!(dir.create_file("x", &Permissions::from_bits(0o644)), Ok(()));
    assert_eq!(dir.create_file("x", &Permissions::from_bits(0o644)), Err(Vfs9Error::NotFound));
}

#[test]
fn create_needs_write_permission_on_the_directory() {
    let mut dir = mem_dir(0o555, true);
    assert_eq!(
        dir.create_file("x", &Permissions::from_bits(0o644)),
        Err(Vfs9Error::PermissionDenied)
    );
    assert_eq!(
        dir.create_dir("d", &Permissions::from_bits(0o755)),
        Err(Vfs9Error::PermissionDenied)
    );
}

#[test]
fn create_dir_masks_all_permission_bits() {
    let mut dir = mem_dir(0o750, true);
    assert_eq!(dir.create_dir("d", &Permissions::from_bits(0o777)), Ok(()));
    match dir.walk("d") {
        Ok(DirectoryOrFile::Directory(d)) => {
            // 0o777 & (!0o777 | (0o750 & 0o777)) = 0o750
            assert_eq!(d.mode.permissions.to_bits(), 0o750);
            assert!(d.qid.file_type.is_dir);
        },
        _ => panic!("the created name must resolve to a directory"),
    }
}

#[test]
fn created_children_get_distinct_paths() {
    let mut dir = mem_dir(0o755, true);
    assert_eq!(dir.create_file("a", &Permissions::from_bits(0o644)), Ok(()));
    assert_eq!(dir.create_file("b", &Permissions::from_bits(0o644)), Ok(()));
    let qa = match dir.walk("a") {
        Ok(DirectoryOrFile::File(f)) => f.qid,
        _ => panic!("'a' must resolve to a file"),
    };
    let qb = match dir.walk("b") {
        Ok(DirectoryOrFile::File(f)) => f.qid,
        _ => panic!("'b' must resolve to a file"),
    };
    assert_ne!(qa.path, qb.path);
}

#[test]
fn dir_wstat_keeps_the_root_named_slash() {
    let mut dir = mem_dir(0o755, true);
    let mut s = dir.stat().expect("stat");
    s.name = String::from("elsewhere");
    assert_eq!(dir.wstat(&s), Err(Vfs9Error::IllegalOperation));
    s.name = String::from("/");
    assert_eq!(dir.wstat(&s), Ok(()));
}
