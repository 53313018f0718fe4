use ws63_rf::cstr::{
    atoi, bytes_order, cstr_order, cstr_order_n, osal_bytes_order, strlen, strstr, strtol, tolower,
    Parsed,
};

#[test]
fn strlen_stops_at_the_terminator_or_the_end() {
    assert_eq!(strlen(b"wlan0\0junk"), 5);
    assert_eq!(strlen(b"abc"), 3);
    assert_eq!(strlen(b"\0"), 0);
    assert_eq!(strlen(b""), 0);
}

#[test]
fn string_comparison_uses_the_first_difference() {
    assert_eq!(cstr_order(b"abc\0", b"abc\0x"), 0);
    assert_eq!(cstr_order(b"abd", b"abc"), 1);
    assert_eq!(cstr_order(b"ab", b"abc"), -(b'c' as i32));
    assert_eq!(cstr_order_n(b"abcx", b"abcy", 3), 0);
    assert_eq!(cstr_order_n(b"abcx", b"abcy", 4), -1);
    assert_eq!(cstr_order_n(b"a", b"b", 0), 0);
}

#[test]
fn memory_comparison_counts_every_byte() {
    assert_eq!(bytes_order(b"a\0b", b"a\0c", 3), -1);
    assert_eq!(bytes_order(b"a\0b", b"a\0c", 2), 0);
    assert_eq!(bytes_order(&[0xff], &[0x01], 1), 0xfe);
    assert_eq!(osal_bytes_order(b"x", b"y", 0), 0);
    assert_eq!(osal_bytes_order(b"x", b"y", -3), 0);
    assert_eq!(osal_bytes_order(b"x", b"y", 1), -1);
}

#[test]
fn strstr_finds_the_first_occurrence() {
    assert_eq!(strstr(b"hello world\0", b"o\0"), Some(4));
    assert_eq!(strstr(b"hello world", b"world"), Some(6));
    assert_eq!(strstr(b"hello", b"xyz"), None);
    assert_eq!(strstr(b"hello", b""), Some(0));
    assert_eq!(strstr(b"ab\0cd", b"cd"), None);
}

#[test]
fn tolower_only_changes_ascii_capitals() {
    assert_eq!(tolower(b'A' as i32), b'a' as i32);
    assert_eq!(tolower(b'Z' as i32), b'z' as i32);
    assert_eq!(tolower(b'a' as i32), b'a' as i32);
    assert_eq!(tolower(b'@' as i32), b'@' as i32);
    assert_eq!(tolower(-1), -1);
}

#[test]
fn strtol_handles_space_sign_and_radix_prefixes() {
    assert_eq!(strtol(b"  -42x", 10), Parsed { value: -42, end: 5 });
    assert_eq!(strtol(b"0x1F", 0), Parsed { value: 31, end: 4 });
    assert_eq!(strtol(b"0X1f", 16), Parsed { value: 31, end: 4 });
    assert_eq!(strtol(b"017", 0), Parsed { value: 15, end: 3 });
    assert_eq!(strtol(b"+z", 36), Parsed { value: 35, end: 2 });
    assert_eq!(strtol(b"129", 2), Parsed { value: 1, end: 1 });
}

#[test]
fn atoi_reads_decimal_and_wraps_to_32_bits() {
    assert_eq!(atoi(b"123"), 123);
    assert_eq!(atoi(b" -7"), -7);
    assert_eq!(atoi(b"4294967297"), 1);
    assert_eq!(atoi(b"2147483648"), i32::MIN);
    assert_eq!(atoi(b"abc"), 0);
}
