use ws63_rf::wal::{ioctl, IOCTL_REFUSED};

#[test]
fn rejects_non_terminated_interface_name() {
    assert_eq!(ioctl(b"wlan0", 0), Err(-1));
}

#[test]
fn terminated_interface_name_issues_the_command() {
    assert_eq!(ioctl(b"wlan0\0", 7), Ok(7));
    assert_eq!(ioctl(b"\0", 0x8b), Ok(0x8b));
    assert_eq!(ioctl(b"", 1), Err(IOCTL_REFUSED));
}
