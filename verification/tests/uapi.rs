use ws63_rf::uapi::{
    choose_base_mac, derive_device_address, efuse_bit, local_admin_mac, required_len,
    systick_clock, tcxo_vendor_id, timespec_parts, timeval_parts, uapi_tsensor_get_current_temp, valid_unicast_mac, TcxoFreq,
    UAPI_NOK, UAPI_OK,
};

#[test]
fn tsensor_contract_writes_output_and_returns_status() {
    let mut temp = 0_i8;
    assert_eq!(uapi_tsensor_get_current_temp(Some(&mut temp)), 0);
    assert_eq!(temp, 25);
    assert_ne!(uapi_tsensor_get_current_temp(None), 0);
}

#[test]
fn tcxo_contract_uses_vendor_enum_not_hertz() {
    assert_eq!(tcxo_vendor_id(TcxoFreq::MHz40), 0);
    assert_eq!(tcxo_vendor_id(TcxoFreq::MHz24), 1);
}

#[test]
fn unicast_addresses_exclude_multicast_zero_and_broadcast() {
    assert!(valid_unicast_mac(&[0x02, 0x11, 0x22, 0x33, 0x44, 0x55]));
    assert!(!valid_unicast_mac(&[0x01, 0x11, 0x22, 0x33, 0x44, 0x55]));
    assert!(!valid_unicast_mac(&[0; 6]));
    assert!(!valid_unicast_mac(&[0xff; 6]));
}

#[test]
fn base_address_prefers_factory_then_efuse_then_fallback() {
    let factory = [0x00, 0x11, 0x22, 0x33, 0x44, 0x55];
    let efuse_a = [0x10, 0x20, 0x30, 0x40, 0x50, 0x60];
    let efuse_b = [0x12, 0x22, 0x32, 0x42, 0x52, 0x62];
    let fallback = [0xff, 0xee, 0xdd, 0xcc, 0xbb, 0xaa];
    assert_eq!(choose_base_mac(Some(factory), &[Some(efuse_a)], fallback), factory);
    assert_eq!(
        choose_base_mac(Some([0xff; 6]), &[None, Some([0x01; 6]), Some(efuse_a), Some(efuse_b)], fallback),
        efuse_a
    );
    assert_eq!(
        choose_base_mac(None, &[None, Some([0; 6])], fallback),
        [0xfe, 0x00, 0x73, 0xcc, 0xbb, 0xaa]
    );
    assert_eq!(local_admin_mac(fallback), [0xfe, 0x00, 0x73, 0xcc, 0xbb, 0xaa]);
}

#[test]
fn interface_addresses_add_the_type_offset_with_carry() {
    let base = [0x00, 0x11, 0x22, 0x33, 0x44, 0xff];
    assert_eq!(derive_device_address(base, 2), Some(base));
    assert_eq!(derive_device_address(base, 3), Some([0x00, 0x11, 0x22, 0x33, 0x45, 0x01]));
    assert_eq!(derive_device_address(base, 7), Some([0x00, 0x11, 0x22, 0x33, 0x45, 0x02]));
    assert_eq!(derive_device_address(base, 4), None);
    assert_eq!(derive_device_address([0xff; 6], 3), Some([0x00, 0, 0, 0, 0, 1]));
    assert_eq!(derive_device_address([0x01, 0, 0, 0, 0, 0], 2), Some([0, 0, 0, 0, 0, 0]));
}

#[test]
fn efuse_bits_and_length_saturation() {
    assert_eq!(efuse_bit(0b1010_0000, 5), Some(1));
    assert_eq!(efuse_bit(0b1010_0000, 4), Some(0));
    assert_eq!(efuse_bit(0xff, 8), None);
    assert_eq!(required_len(12), 12);
    assert_eq!(required_len(70_000), u16::MAX);
}

#[test]
fn systick_clock_is_kept_only_when_plausible() {
    assert_eq!(systick_clock(32_768, 1_000_000), Some(32_768));
    assert_eq!(systick_clock(3, 2), None);
    assert_eq!(systick_clock(1, 0), None);
    assert_eq!(systick_clock(10, 1_000_000), None);
    assert_eq!(systick_clock(1, 3), None);
    assert_eq!(systick_clock(99, 1_000), Some(99_000));
    assert_eq!(UAPI_OK, 0);
    assert_ne!(UAPI_NOK, UAPI_OK);
}

#[test]
fn splits_microseconds_into_time_parts() {
    assert_eq!(timeval_parts(3_250_000), (3, 250_000));
    assert_eq!(timespec_parts(3_250_001), (3, 250_001_000));
    assert_eq!(timeval_parts(999_999), (0, 999_999));
    assert_eq!(timespec_parts(u64::MAX), (u64::MAX / 1_000_000, (u64::MAX % 1_000_000) * 1_000));
}
