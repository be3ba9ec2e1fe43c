use vfs9::FileMode;
use vfs9::FileType;
use vfs9::OpenMode;
use vfs9::OpenSubMode;
use vfs9::Permissions;
use vfs9::Qid;
use vfs9::Vfs9Error;

#[test]
fn permissions_round_trip_every_nine_bit_word() {
    for b in 0u32..512 {
        assert_eq!(Permissions::from_bits(b).to_bits(), b);
    }
}

#[test]
fn permissions_decode_ignores_high_bits() {
    assert_eq!(Permissions::from_bits(0xFFFF_FE00).to_bits(), 0);
    assert_eq!(Permissions::from_bits(0xFFFF_FFFF).to_bits(), 0x1FF);
}

#[test]
fn permissions_decode_sets_the_right_flags() {
    let p = Permissions::from_bits(0o755);
    assert!(p.owner.read && p.owner.write && p.owner.execute);
    assert!(p.group.read && !p.group.write && p.group.execute);
    assert!(p.other.read && !p.other.write && p.other.execute);
}

#[test]
fn file_type_round_trip_every_effective_byte() {
    for b in 0u16..256 {
        let b = b as u8;
        assert_eq!(FileType::from_bits(b).to_bits(), b & 0b1110_1100);
    }
}

#[test]
fn file_type_reserved_bits_come_out_zero() {
    // bits 4, 1 and 0 of the type byte carry no flag
    assert_eq!(FileType::from_bits(0b0001_0011).to_bits(), 0);
    let t = FileType::from_bits(0xFF);
    assert!(t.is_dir && t.is_append_only && t.is_exclusive && t.is_auth && t.is_temporary);
    assert_eq!(t.to_bits(), 0b1110_1100);
}

#[test]
fn file_mode_defined_bits_round_trip() {
    for f in [
        0u32,
        0o777,
        0x8000_01FF,
        0xEC00_01FF,
        0x4000_0124,
        0x2800_0007,
    ] {
        assert_eq!(FileMode::from_bits(f).to_bits() & 0xFF00_01FF, f & 0xFF00_01FF);
    }
}

#[test]
fn file_mode_drops_reserved_and_padding_bits() {
    // the historically reserved bit 28, the unused bits 25 and 24, and the
    // middle of the word all vanish on a decode-encode round trip
    assert_eq!(FileMode::from_bits(0x1000_0000).to_bits(), 0);
    assert_eq!(FileMode::from_bits(0x0300_0000).to_bits(), 0);
    assert_eq!(FileMode::from_bits(0x00FF_FE00).to_bits(), 0);
    assert_eq!(FileMode::from_bits(0xFFFF_FFFF).to_bits(), 0xEC00_01FF);
}

#[test]
fn file_mode_splits_type_byte_and_permissions() {
    let m = FileMode::from_bits(0x8000_01ED);
    assert!(m.file_type.is_dir);
    assert!(!m.file_type.is_append_only);
    assert!(m.permissions.owner.read);
    assert_eq!(m.permissions.to_bits(), 0o755);
}

#[test]
fn open_mode_decode_zero_is_plain_read() {
    assert_eq!(
        OpenMode::from_bits(0x00),
        Ok(OpenMode { submode: OpenSubMode::Read, truncate: false, rclose: false })
    );
}

#[test]
fn open_mode_decode_x51_is_write_truncate_rclose() {
    // 0x51 = 0x40 | 0x10 | 0x01
    assert_eq!(
        OpenMode::from_bits(0x51),
        Ok(OpenMode { submode: OpenSubMode::Write, truncate: true, rclose: true })
    );
}

#[test]
fn open_submode_decode_table() {
    assert_eq!(OpenSubMode::from_bits(0), Ok(OpenSubMode::Read));
    assert_eq!(OpenSubMode::from_bits(1), Ok(OpenSubMode::Write));
    assert_eq!(OpenSubMode::from_bits(2), Ok(OpenSubMode::ReadWrite));
    assert_eq!(OpenSubMode::from_bits(3), Ok(OpenSubMode::Execute));
    // only the low two bits select the submode
    assert_eq!(OpenSubMode::from_bits(0xFE), Ok(OpenSubMode::ReadWrite));
}

#[test]
fn qid_equality_is_the_identity_triple() {
    let t = FileType::from_bits(0x80);
    let a = Qid { file_type: t, version: 3, path: 77 };
    let b = Qid { file_type: FileType::from_bits(0x80), version: 3, path: 77 };
    assert_eq!(a, b);
    assert_ne!(a, Qid { file_type: FileType::from_bits(0x40), version: 3, path: 77 });
    assert_ne!(a, Qid { file_type: t, version: 4, path: 77 });
    assert_ne!(a, Qid { file_type: t, version: 3, path: 78 });
}

#[test]
fn create_masks_follow_the_wire_formulas() {
    let requested = Permissions::from_bits(0o777);
    let dir = Permissions::from_bits(0o755);
    // files: 0o777 & (!0o666 | (0o755 & 0o666)) = 0o755
    assert_eq!(requested.mask_for_file(&dir).to_bits(), 0o755);
    // directories: every bit is masked by the parent's
    assert_eq!(requested.mask_for_dir(&dir).to_bits(), 0o755);
    let narrow = Permissions::from_bits(0o705);
    assert_eq!(requested.mask_for_file(&narrow).to_bits(), 0o715);
    assert_eq!(requested.mask_for_dir(&narrow).to_bits(), 0o705);
}

#[test]
fn error_kinds_are_distinct() {
    assert_ne!(Vfs9Error::NotFound, Vfs9Error::PermissionDenied);
    assert_ne!(Vfs9Error::IllegalName, Vfs9Error::IllegalOperation);
    assert_ne!(Vfs9Error::ExclusiveConflict, Vfs9Error::IoFailure);
}
