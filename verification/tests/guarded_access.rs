use super_cat::reader::{ReadError, ReadProbe};
use super_cat::selection::{FileId, Guard, PathLookup, RejectionReason};

fn present(dev: u64, ino: u64) -> PathLookup {
    PathLookup::Present { is_symlink: false, id: FileId { dev, ino } }
}

fn symlink(dev: u64, ino: u64) -> PathLookup {
    PathLookup::Present { is_symlink: true, id: FileId { dev, ino } }
}

#[test]
fn select_regular_file_succeeds() {
    let mut g = Guard::new();
    let r = g.select(b"notes.txt".to_vec(), present(7, 101));
    assert_eq!(r, Ok(()));

    let d = g.describe_current().expect("a selection was committed");
    assert_eq!(d.path, b"notes.txt".to_vec());
    assert_eq!(d.id, FileId { dev: 7, ino: 101 });

    let sel = g.begin_read().expect("a selection was committed");
    assert_eq!(sel.path, b"notes.txt".to_vec());
    let probe = ReadProbe::Opened { is_symlink: false, id: FileId { dev: 7, ino: 101 } };
    assert_eq!(sel.authorize_read(probe), Ok(()));
}

#[test]
fn protected_name_rejected_then_no_selection() {
    let mut g = Guard::new();
    let r = g.select(b"flag.txt".to_vec(), present(7, 500));
    assert_eq!(r, Err(RejectionReason::ProtectedName));
    match g.begin_read() {
        Err(e) => assert_eq!(e, ReadError::NoSelection),
        Ok(_) => panic!("nothing was selected"),
    }
}

#[test]
fn symlink_rejected() {
    let mut g = Guard::new();
    let r = g.select(b"link_to_flag".to_vec(), symlink(7, 500));
    assert_eq!(r, Err(RejectionReason::Symlink));
    assert!(g.describe_current().is_none());
}

#[test]
fn swap_to_symlink_before_read_is_policy_violation() {
    let mut g = Guard::new();
    assert_eq!(g.select(b"notes.txt".to_vec(), present(7, 101)), Ok(()));
    let sel = g.begin_read().expect("a selection was committed");

    // The path now carries a symbolic link to the protected resource.
    let probe = ReadProbe::Opened { is_symlink: true, id: FileId { dev: 7, ino: 500 } };
    assert_eq!(sel.authorize_read(probe), Err(ReadError::PolicyViolation));
}

#[test]
fn swap_to_other_object_before_read_is_policy_violation() {
    let mut g = Guard::new();
    assert_eq!(g.select(b"notes.txt".to_vec(), present(7, 101)), Ok(()));
    let sel = g.begin_read().expect("a selection was committed");

    // Same name, but another object stands behind it now.
    let probe = ReadProbe::Opened { is_symlink: false, id: FileId { dev: 7, ino: 500 } };
    assert_eq!(sel.authorize_read(probe), Err(ReadError::PolicyViolation));
}

#[test]
fn missing_path_not_found() {
    let mut g = Guard::new();
    let r = g.select(b"absent.txt".to_vec(), PathLookup::Missing);
    assert_eq!(r, Err(RejectionReason::NotFound));
    assert!(g.describe_current().is_none());
}

#[test]
fn nested_protected_name_rejected() {
    let mut g = Guard::new();
    let r = g.select(b"a/b/flag.txt".to_vec(), present(7, 500));
    assert_eq!(r, Err(RejectionReason::ProtectedName));
}

#[test]
fn missing_protected_name_still_protected() {
    let mut g = Guard::new();
    let r = g.select(b"flag.txt".to_vec(), PathLookup::Missing);
    assert_eq!(r, Err(RejectionReason::ProtectedName));
}

#[test]
fn symlink_named_like_protected_rejected_as_symlink() {
    let mut g = Guard::new();
    let r = g.select(b"flag.txt".to_vec(), symlink(7, 500));
    assert_eq!(r, Err(RejectionReason::Symlink));
}

#[test]
fn select_twice_same_path_is_idempotent() {
    let mut g = Guard::new();
    assert_eq!(g.select(b"notes.txt".to_vec(), present(7, 101)), Ok(()));
    let first = g.describe_current().expect("a selection was committed");
    assert_eq!(g.select(b"notes.txt".to_vec(), present(7, 101)), Ok(()));
    let second = g.describe_current().expect("a selection was committed");
    assert_eq!(first.path, second.path);
    assert_eq!(first.id, second.id);
}

#[test]
fn rejection_keeps_prior_selection() {
    let mut g = Guard::new();
    assert_eq!(g.select(b"notes.txt".to_vec(), present(7, 101)), Ok(()));
    assert_eq!(
        g.select(b"link_to_flag".to_vec(), symlink(7, 500)),
        Err(RejectionReason::Symlink)
    );
    assert_eq!(
        g.select(b"flag.txt".to_vec(), present(7, 500)),
        Err(RejectionReason::ProtectedName)
    );
    assert_eq!(
        g.select(b"absent.txt".to_vec(), PathLookup::Missing),
        Err(RejectionReason::NotFound)
    );
    let d = g.describe_current().expect("the prior selection is kept");
    assert_eq!(d.path, b"notes.txt".to_vec());
    assert_eq!(d.id, FileId { dev: 7, ino: 101 });
}

#[test]
fn open_failure_is_io_failure() {
    let mut g = Guard::new();
    assert_eq!(g.select(b"notes.txt".to_vec(), present(7, 101)), Ok(()));
    let sel = g.begin_read().expect("a selection was committed");
    assert_eq!(sel.authorize_read(ReadProbe::OpenFailed), Err(ReadError::IoFailure));
}

#[test]
fn read_succeeds_only_for_selected_identity() {
    let mut g = Guard::new();
    assert_eq!(g.select(b"data/notes.txt".to_vec(), present(3, 42)), Ok(()));
    let sel = g.begin_read().expect("a selection was committed");
    let same = ReadProbe::Opened { is_symlink: false, id: FileId { dev: 3, ino: 42 } };
    assert_eq!(sel.authorize_read(same), Ok(()));
    let other_device = ReadProbe::Opened { is_symlink: false, id: FileId { dev: 4, ino: 42 } };
    assert_eq!(sel.authorize_read(other_device), Err(ReadError::PolicyViolation));
}

#[test]
fn describe_none_initially() {
    let g = Guard::new();
    assert!(g.describe_current().is_none());
}
