use swhkd::interface::{
    device_name, open_access, os_error_code, sysfs_name_path, Interface, OpenPlan, NOT_LISTED,
};

#[test]
fn device_list_lines_are_trimmed() {
    let i = Interface::new("Sino Wealth USB Keyboard\nSino Wealth USB Keyboard Consumer Control  \r\n");
    assert!(i.contains("Sino Wealth USB Keyboard"));
    assert!(i.contains("Sino Wealth USB Keyboard Consumer Control"));
    assert!(!i.contains("Sino Wealth USB Keyboard Consumer Control  "));
    assert!(!i.contains(""));
}

#[test]
fn empty_lines_count_as_empty_names() {
    let i = Interface::new("a\n\nb");
    assert!(i.contains("a"));
    assert!(i.contains(""));
    assert!(i.contains("b"));
    let empty = Interface::new("");
    assert!(!empty.contains(""));
}

#[test]
fn open_access_follows_flags() {
    assert_eq!(open_access(libc::O_RDONLY), (false, false));
    assert_eq!(open_access(libc::O_WRONLY), (false, true));
    assert_eq!(open_access(libc::O_RDWR), (true, true));
    assert_eq!(open_access(libc::O_RDWR | libc::O_NONBLOCK), (true, true));
}

#[test]
fn open_restricted_refuses_unlisted_devices() {
    let i = Interface::new("kbd\n");
    assert_eq!(i.open_restricted(Ok("mouse".to_string()), libc::O_RDWR), OpenPlan::Refuse(NOT_LISTED));
    assert_eq!(NOT_LISTED, -414);
    assert_eq!(
        i.open_restricted(Ok("kbd".to_string()), libc::O_RDWR),
        OpenPlan::Open { read: true, write: true }
    );
    assert_eq!(i.open_restricted(Err(Some(2)), libc::O_RDWR), OpenPlan::Refuse(2));
    assert_eq!(i.open_restricted(Err(None), libc::O_RDWR), OpenPlan::Refuse(-1));
}

#[test]
fn os_error_codes() {
    assert_eq!(os_error_code(Some(13)), 13);
    assert_eq!(os_error_code(None), -1);
}

#[test]
fn sysfs_name_path_below_dev_input() {
    assert_eq!(
        sysfs_name_path("/dev/input/event3"),
        Some("/sys/class/input/event3/device/name".to_string())
    );
    assert_eq!(sysfs_name_path("/dev/inputs/event3"), None);
    assert_eq!(sysfs_name_path("/tmp/event3"), None);
}

#[test]
fn device_name_drops_trailing_whitespace() {
    assert_eq!(device_name("AT Translated Set 2 keyboard\n"), "AT Translated Set 2 keyboard");
    assert_eq!(device_name(" x \t\r\n"), " x");
    assert_eq!(device_name(""), "");
}

#[test]
fn trimming_twice_changes_nothing() {
    let once = device_name("Logitech USB Receiver \n\t ");
    assert_eq!(once, "Logitech USB Receiver");
    assert_eq!(device_name(&once), once);
}
