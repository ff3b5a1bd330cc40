//! The automount trial: order, stopping, and error reporting.
use sys_mount::MountError;
use sys_mount::Trial;

fn candidates() -> Vec<String> {
    vec!["ext4".to_string(), "xfs".to_string(), "btrfs".to_string()]
}

#[test]
fn trial_walks_candidates_in_order() {
    let mut t = Trial::new(candidates());
    assert_eq!(t.current().as_deref(), Some("ext4"));
    t.fail(MountError::Os(22));
    assert_eq!(t.current().as_deref(), Some("xfs"));
    t.fail(MountError::Os(19));
    assert_eq!(t.current().as_deref(), Some("btrfs"));
}

#[test]
fn success_reports_the_driver_that_succeeded() {
    let mut t = Trial::new(candidates());
    t.fail(MountError::Os(22));
    t.fail(MountError::Os(22));
    // The third candidate succeeds: the handle reports it, not the first.
    let m = t.finish_success("/mnt", None);
    assert_eq!(m.get_fstype(), "btrfs");
    assert_eq!(m.target_path(), "/mnt");
    assert!(m.backing_loop_device().is_none());
}

#[test]
fn success_carries_the_loopback_device() {
    let t = Trial::new(vec!["iso9660".to_string()]);
    let m = t.finish_success("/mnt/cd", Some("/dev/loop3".to_string()));
    assert_eq!(m.get_fstype(), "iso9660");
    assert_eq!(m.backing_loop_device().map(|p| p.as_str()), Some("/dev/loop3"));
}

#[test]
fn exhaustion_reports_the_last_concrete_error() {
    let mut t = Trial::new(candidates());
    t.fail(MountError::Os(22));
    t.fail(MountError::Os(5));
    t.fail(MountError::Os(19));
    assert!(t.current().is_none());
    assert_eq!(t.finish_failure(), MountError::Os(19));
}

#[test]
fn no_candidates_reports_not_found() {
    let t = Trial::new(Vec::new());
    assert!(t.current().is_none());
    assert_eq!(t.finish_failure(), MountError::NoSupportedFilesystem);
}
