//! Driver discovery: parsing the kernel registry and classifying drivers.
use sys_mount::SupportedFilesystems;

#[test]
fn nodev_line_is_not_device_backed() {
    let s = SupportedFilesystems::parse("nodev\txfs\next4\n");
    let nodev: Vec<String> = s.nodev_file_systems();
    let dev: Vec<String> = s.dev_file_systems();
    assert!(nodev.iter().any(|n| n == "xfs"));
    assert!(!dev.iter().any(|n| n == "xfs"));
    assert!(dev.iter().any(|n| n == "ext4"));
    assert!(!nodev.iter().any(|n| n == "ext4"));
}

#[test]
fn is_supported_iff_discovered() {
    let s = SupportedFilesystems::parse("nodev\tproc\nnodev\ttmpfs\next4\nbtrfs\n");
    assert!(s.is_supported("proc"));
    assert!(s.is_supported("tmpfs"));
    assert!(s.is_supported("ext4"));
    assert!(s.is_supported("btrfs"));
    assert!(!s.is_supported("totally-fake-fs"));
}

#[test]
fn discovery_keeps_registry_order() {
    let s = SupportedFilesystems::parse("ext4\nnodev\tproc\nbtrfs\nxfs\nnodev\tsysfs\n");
    assert_eq!(s.dev_file_systems(), vec!["ext4", "btrfs", "xfs"]);
    assert_eq!(s.nodev_file_systems(), vec!["proc", "sysfs"]);
}

#[test]
fn malformed_lines_are_skipped() {
    // Two words that do not start with `nodev`, and an empty line, are
    // ignored; extra words after `nodev <name>` are ignored too.
    let s = SupportedFilesystems::parse("ext4 junk\n\nnodev\txfs\textra\nbtrfs\n");
    assert_eq!(s.dev_file_systems(), vec!["btrfs"]);
    assert_eq!(s.nodev_file_systems(), vec!["xfs"]);
    assert!(!s.is_supported("ext4"));
    assert!(!s.is_supported("junk"));
}

#[test]
fn carriage_returns_are_separators() {
    let s = SupportedFilesystems::parse("nodev\tproc\r\next4\r\n");
    assert_eq!(s.nodev_file_systems(), vec!["proc"]);
    assert_eq!(s.dev_file_systems(), vec!["ext4"]);
}

#[test]
fn empty_registry_lists_nothing() {
    let s = SupportedFilesystems::parse("");
    assert!(s.dev_file_systems().is_empty());
    assert!(s.nodev_file_systems().is_empty());
    assert!(!s.is_supported("ext4"));
}

#[test]
fn lone_nodev_word_is_a_driver_name() {
    // A line holding the single word `nodev` is a one-word line, so it
    // names a device-backed driver called `nodev`.
    let s = SupportedFilesystems::parse("nodev\n");
    assert_eq!(s.dev_file_systems(), vec!["nodev"]);
    assert!(s.nodev_file_systems().is_empty());
}
