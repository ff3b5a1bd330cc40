//! Mount planning: driver resolution, image handling and validation.
use sys_mount::FilesystemType;
use sys_mount::PropagationType;
use sys_mount::ScopedMountError;
use sys_mount::Mount;
use sys_mount::MountError;
use sys_mount::MountFlags;
use sys_mount::SupportedFilesystems;

#[test]
fn manual_driver_yields_one_candidate_and_no_loopback() {
    let plan = Mount::builder()
        .fstype(FilesystemType::Manual("ext4"))
        .prepare("/dev/sda1", "/mnt", None)
        .unwrap();
    assert_eq!(plan.candidates, vec!["ext4"]);
    assert!(!plan.loopback);
    assert_eq!(plan.source.as_deref(), Some("/dev/sda1"));
    assert_eq!(plan.target, "/mnt");
    assert_eq!(plan.flags.bits(), 0);
}

#[test]
fn iso_source_forces_loopback_readonly_iso9660() {
    let plan = Mount::builder()
        .fstype(FilesystemType::Manual("ext4"))
        .prepare("/images/disk.iso", "/mnt", None)
        .unwrap();
    assert_eq!(plan.candidates, vec!["iso9660"]);
    assert!(plan.loopback);
    assert!(plan.flags.contains(MountFlags::rdonly()));
    assert_eq!(plan.source.as_deref(), Some("/images/disk.iso"));
}

#[test]
fn squashfs_source_forces_loopback_readonly_squashfs() {
    let plan = Mount::builder()
        .fstype(FilesystemType::Manual("ext4"))
        .prepare("root.squashfs", "/mnt", None)
        .unwrap();
    assert_eq!(plan.candidates, vec!["squashfs"]);
    assert!(plan.loopback);
    assert!(plan.flags.contains(MountFlags::rdonly()));
}

#[test]
fn other_extension_is_no_image() {
    let plan = Mount::builder()
        .fstype(FilesystemType::Manual("ext4"))
        .prepare("/images/disk.img", "/mnt", None)
        .unwrap();
    assert_eq!(plan.candidates, vec!["ext4"]);
    assert!(!plan.loopback);
    assert!(!plan.flags.contains(MountFlags::rdonly()));
}

#[test]
fn hidden_file_has_no_extension() {
    // A final component that is nothing but `.iso` has no extension.
    let plan = Mount::builder()
        .fstype(FilesystemType::Manual("ext4"))
        .prepare("/images/.iso", "/mnt", None)
        .unwrap();
    assert_eq!(plan.candidates, vec!["ext4"]);
    assert!(!plan.loopback);
}

#[test]
fn empty_source_skips_loopback_and_passes_no_source() {
    let plan = Mount::builder()
        .fstype(FilesystemType::Manual("tmpfs"))
        .prepare("", "/tmp/scratch", None)
        .unwrap();
    assert!(plan.source.is_none());
    assert!(!plan.loopback);
    assert_eq!(plan.candidates, vec!["tmpfs"]);
}

#[test]
fn embedded_nul_is_rejected_before_anything_else() {
    let builder = Mount::builder().fstype(FilesystemType::Manual("ext4"));
    assert_eq!(
        builder.prepare("/dev/\0sda1", "/mnt", None).unwrap_err(),
        MountError::InvalidString
    );
    assert_eq!(
        builder.prepare("/dev/sda1", "/m\0nt", None).unwrap_err(),
        MountError::InvalidString
    );
    let with_data = builder.data("sub\0vol=@home");
    assert_eq!(
        with_data.prepare("/dev/sda1", "/mnt", None).unwrap_err(),
        MountError::InvalidString
    );
}

#[test]
fn driver_list_is_tried_in_given_order() {
    let drivers: Vec<&str> = vec!["vfat", "exfat", "ntfs"];
    let plan = Mount::builder()
        .fstype(FilesystemType::List(&drivers))
        .prepare("/dev/sdb1", "/mnt", None)
        .unwrap();
    assert_eq!(plan.candidates, vec!["vfat", "exfat", "ntfs"]);
}

#[test]
fn automatic_selection_tries_device_backed_drivers_in_discovery_order() {
    let s = SupportedFilesystems::parse("nodev\tproc\next4\nnodev\ttmpfs\nbtrfs\nxfs\n");
    let plan = Mount::builder()
        .fstype(FilesystemType::Auto(&s))
        .prepare("/dev/sda1", "/mnt", None)
        .unwrap();
    assert_eq!(plan.candidates, vec!["ext4", "btrfs", "xfs"]);

    // Leaving the driver selection unset and handing the snapshot to
    // `prepare` resolves the same way.
    let plan = Mount::builder().prepare("/dev/sda1", "/mnt", Some(&s)).unwrap();
    assert_eq!(plan.candidates, vec!["ext4", "btrfs", "xfs"]);
}

#[test]
fn builder_settings_carry_into_the_plan() {
    let plan = Mount::builder()
        .fstype(FilesystemType::Manual("btrfs"))
        .data("subvol=@home")
        .flags(MountFlags::from_bits(
            sys_mount::flags::MS_NOSUID | sys_mount::flags::MS_NOEXEC,
        ))
        .loopback_offset(512)
        .prepare("/dev/sda1", "/home", None)
        .unwrap();
    assert_eq!(plan.data.as_deref(), Some("subvol=@home"));
    assert_eq!(plan.loopback_offset, 512);
    assert!(plan.flags.contains(MountFlags::nosuid()));
    assert!(plan.flags.contains(MountFlags::noexec()));
    assert!(!plan.flags.contains(MountFlags::rdonly()));
}

#[test]
fn iso_keeps_caller_flags_and_adds_readonly() {
    let plan = Mount::builder()
        .fstype(FilesystemType::Manual("ext4"))
        .flags(MountFlags::noexec())
        .prepare("disk.iso", "/mnt", None)
        .unwrap();
    assert!(plan.flags.contains(MountFlags::noexec()));
    assert!(plan.flags.contains(MountFlags::rdonly()));
    assert_eq!(
        plan.flags.bits(),
        sys_mount::flags::MS_NOEXEC | sys_mount::flags::MS_RDONLY
    );
}

#[test]
fn flag_bits_match_the_platform() {
    assert_eq!(MountFlags::rdonly().bits(), 0x1);
    assert_eq!(MountFlags::nosuid().bits(), 0x2);
    assert_eq!(MountFlags::nodev().bits(), 0x4);
    assert_eq!(MountFlags::noexec().bits(), 0x8);
    assert_eq!(MountFlags::bind().bits(), 0x1000);
    assert_eq!(MountFlags::empty().bits(), 0);
    let both = MountFlags::rdonly().union(MountFlags::noexec());
    assert_eq!(both.bits(), 0x9);
    assert!(both.contains(MountFlags::rdonly()));
    assert!(!both.contains(MountFlags::nodev()));
}

#[test]
fn builder_reports_whether_discovery_is_needed() {
    assert!(Mount::builder().needs_discovery());
    assert!(!Mount::builder()
        .fstype(FilesystemType::Manual("ext4"))
        .needs_discovery());
}

#[test]
fn propagation_bits_match_the_platform() {
    assert_eq!(PropagationType::shared().bits(), 0x100000);
    assert_eq!(PropagationType::slave().bits(), 0x80000);
    assert_eq!(PropagationType::private().bits(), 0x40000);
    assert_eq!(PropagationType::unbindable().bits(), 0x20000);
}

#[test]
fn scoped_mount_errors_tell_discovery_and_mount_apart() {
    let discovery = ScopedMountError::Supported(MountError::Os(13));
    let mounting = ScopedMountError::Mount(MountError::NoSupportedFilesystem);
    assert_ne!(discovery, mounting);
    assert!(matches!(discovery, ScopedMountError::Supported(MountError::Os(13))));
    assert!(matches!(
        mounting,
        ScopedMountError::Mount(MountError::NoSupportedFilesystem)
    ));
}
