//! Teardown guards and the reverse-order collection.
use sys_mount::Mount;
use sys_mount::Mounts;
use sys_mount::Unmount;
use sys_mount::UnmountFlags;

fn mounted(target: &str) -> Mount {
    Mount::from_target_and_fstype(target.to_string(), "ext4".to_string())
}

#[test]
fn collection_tears_down_in_reverse_insertion_order() {
    let mounts = Mounts(vec![
        mounted("/mnt/a").into_unmount_drop(UnmountFlags::empty()),
        mounted("/mnt/b").into_unmount_drop(UnmountFlags::empty()),
        mounted("/mnt/c").into_unmount_drop(UnmountFlags::empty()),
    ]);
    let order = mounts.unmount_order(false);
    let targets: Vec<&str> = order.iter().map(|t| t.target.as_str()).collect();
    assert_eq!(targets, vec!["/mnt/c", "/mnt/b", "/mnt/a"]);
    assert!(order.iter().all(|t| t.flags.bits() == 0));
    assert!(order.iter().all(|t| t.loop_device.is_none()));
}

#[test]
fn lazy_unmount_applies_detach_to_every_guard() {
    let mounts = Mounts(vec![
        mounted("/mnt/a").into_unmount_drop(UnmountFlags::empty()),
        mounted("/mnt/b").into_unmount_drop(UnmountFlags::force()),
    ]);
    let order = mounts.unmount_order(true);
    assert_eq!(order.len(), 2);
    assert!(order.iter().all(|t| t.flags == UnmountFlags::detach()));
    assert_eq!(order[0].target, "/mnt/b");
    assert_eq!(order[1].target, "/mnt/a");
}

#[test]
fn scope_exit_uses_each_guards_own_flags() {
    let mounts = Mounts(vec![
        mounted("/mnt/a").into_unmount_drop(UnmountFlags::empty()),
        mounted("/mnt/b").into_unmount_drop(UnmountFlags::detach()),
    ]);
    let order = mounts.drop_order();
    assert_eq!(order[0].target, "/mnt/b");
    assert_eq!(order[0].flags, UnmountFlags::detach());
    assert_eq!(order[1].target, "/mnt/a");
    assert_eq!(order[1].flags, UnmountFlags::empty());
}

#[test]
fn set_unmount_flags_changes_the_teardown_request() {
    let mut guard = mounted("/mnt/data").into_unmount_drop(UnmountFlags::empty());
    assert_eq!(guard.flags(), UnmountFlags::empty());
    guard.set_unmount_flags(UnmountFlags::detach());
    assert_eq!(guard.flags(), UnmountFlags::detach());
    let (target, flags) = guard.teardown_request();
    assert_eq!(target, "/mnt/data");
    assert_eq!(flags, UnmountFlags::detach());
}

#[test]
fn guard_exposes_the_wrapped_mount() {
    let guard = mounted("/mnt/data").into_unmount_drop(UnmountFlags::empty());
    assert_eq!(guard.inner().target_path(), "/mnt/data");
    assert_eq!(guard.inner().get_fstype(), "ext4");
}

#[test]
fn unmount_flag_bits_match_the_platform() {
    assert_eq!(UnmountFlags::force().bits(), 0x1);
    assert_eq!(UnmountFlags::detach().bits(), 0x2);
    assert_eq!(UnmountFlags::expire().bits(), 0x4);
    assert_eq!(UnmountFlags::nofollow().bits(), 0x8);
    assert_eq!(UnmountFlags::empty().bits(), 0);
}

#[test]
fn teardown_request_carries_the_loop_device() {
    let m = mounted("/mnt/cd");
    let m = m.with_loop_device("/dev/loop7".to_string());
    let mounts = Mounts(vec![m.into_unmount_drop(UnmountFlags::empty())]);
    let order = mounts.drop_order();
    assert_eq!(order[0].target, "/mnt/cd");
    assert_eq!(order[0].loop_device.as_deref(), Some("/dev/loop7"));
}

#[test]
fn explicit_teardown_visits_last_guard_first_and_skips_confirmed_guards() {
    let mut mounts = Mounts(vec![
        mounted("/mnt/a").into_unmount_drop(UnmountFlags::empty()),
        mounted("/mnt/b").into_unmount_drop(UnmountFlags::empty()),
    ]);
    let first = mounts.next_teardown(false).unwrap();
    assert_eq!(first.target, "/mnt/b");
    mounts.confirm_teardown();
    // The confirmed guard is gone: the next step names the earlier mount.
    let second = mounts.next_teardown(true).unwrap();
    assert_eq!(second.target, "/mnt/a");
    assert_eq!(second.flags, UnmountFlags::detach());
    mounts.confirm_teardown();
    assert!(mounts.next_teardown(false).is_none());
}
