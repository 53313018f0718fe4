use ws63_rf::log::{conversion_kinds, memcpy_s, memset_s, snprintf_s, ArgKind, FormatArg};

#[test]
fn expands_vendor_netdev_id() {
    let mut output = [0u8; 16];
    let count = output.len();
    let result = snprintf_s(&mut output, count, b"Featureid%u", &[FormatArg::Word(0)]);
    assert_eq!(result, 10);
    assert_eq!(&output[..11], b"Featureid0\0");
}

#[test]
fn rejects_truncated_output() {
    let mut output = [1u8; 8];
    let count = output.len();
    assert_eq!(
        snprintf_s(&mut output, count, b"Featureid%u", &[FormatArg::Word(12)]),
        -1
    );
    assert_eq!(output[0], 0);
}

#[test]
fn expands_vendor_mac_address() {
    let mut output = [0u8; 18];
    let count = output.len() - 1;
    let args = [
        FormatArg::Word(0x82),
        FormatArg::Word(0x2e),
        FormatArg::Word(0xb3),
        FormatArg::Word(0xc1),
        FormatArg::Word(0x55),
        FormatArg::Word(0xc4),
    ];
    let result = snprintf_s(&mut output, count, b"%02x:%02x:%02x:%02x:%02x:%02x", &args);
    assert_eq!(result, 17);
    assert_eq!(&output, b"82:2e:b3:c1:55:c4\0");
}

#[test]
fn formats_strings_signed_words_and_percent() {
    let mut output = [0xaau8; 32];
    let args = [
        FormatArg::Str(b"wlan0".to_vec()),
        FormatArg::Word((-42i32) as u32),
        FormatArg::Word(7),
    ];
    let result = snprintf_s(&mut output, 31, b"%s:%d %5u%%", &args);
    assert_eq!(result, 16);
    assert_eq!(&output[..17], b"wlan0:-42     7%\0");
    assert_eq!(output[17], 0xaa);
}

#[test]
fn unsupported_conversions_are_copied_literally() {
    let mut output = [0u8; 16];
    let result = snprintf_s(&mut output, 15, b"a%qb%x", &[FormatArg::Word(255)]);
    assert_eq!(result, 6);
    assert_eq!(&output[..7], b"a%qbff\0");
}

#[test]
fn empty_destination_is_refused() {
    let mut output: [u8; 0] = [];
    assert_eq!(snprintf_s(&mut output, 4, b"x", &[]), -1);
}

#[test]
fn conversion_kinds_follow_the_format() {
    assert_eq!(
        conversion_kinds(b"%s %% %02x %d %q"),
        vec![ArgKind::Str, ArgKind::Word, ArgKind::Word]
    );
}

#[test]
fn securec_bounds_refuse_counts_over_the_destination_limit() {
    let mut dest = [9u8; 6];
    assert_eq!(memset_s(&mut dest, 6, 0x41, 3), 0);
    assert_eq!(dest, [0x41, 0x41, 0x41, 9, 9, 9]);
    assert_eq!(memset_s(&mut dest, 2, 0, 3), 1);
    assert_eq!(dest, [0x41, 0x41, 0x41, 9, 9, 9]);
    assert_eq!(memcpy_s(&mut dest, 6, b"xyz", 2), 0);
    assert_eq!(dest, [b'x', b'y', 0x41, 9, 9, 9]);
    assert_eq!(memcpy_s(&mut dest, 1, b"xyz", 2), 1);
}
