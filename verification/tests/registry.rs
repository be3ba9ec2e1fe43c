use vfs9::ExclusionRegistry;
use vfs9::Vfs9Error;

#[test]
fn second_acquisition_conflicts_until_release() {
    let mut reg = ExclusionRegistry::new();
    assert!(!reg.is_held(7));
    assert_eq!(reg.try_acquire(7), Ok(()));
    assert!(reg.is_held(7));
    // a second fid opening the same exclusive identity must fail
    assert_eq!(reg.try_acquire(7), Err(Vfs9Error::ExclusiveConflict));
    // ... until the first holder is released
    reg.release(7);
    assert!(!reg.is_held(7));
    assert_eq!(reg.try_acquire(7), Ok(()));
}

#[test]
fn identities_are_tracked_independently() {
    let mut reg = ExclusionRegistry::new();
    assert_eq!(reg.try_acquire(1), Ok(()));
    assert_eq!(reg.try_acquire(2), Ok(()));
    reg.release(1);
    assert!(!reg.is_held(1));
    assert!(reg.is_held(2));
    assert_eq!(reg.try_acquire(2), Err(Vfs9Error::ExclusiveConflict));
}

#[test]
fn releasing_an_absent_identity_changes_nothing() {
    let mut reg = ExclusionRegistry::new();
    reg.release(42);
    assert!(!reg.is_held(42));
    assert_eq!(reg.try_acquire(42), Ok(()));
}
