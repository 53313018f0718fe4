use ws63_rf::wifi::{
    channel_to_frequency, connect_result_outcome, connect_wait_step, created_interface_name_is_valid,
    interface_name, nul_terminated_length, rssi_dbm_from_hundredths, scan_result_from_ap,
    scan_result_from_event, scan_wait_step, ssid_from_ies, wpa_event_outcome, ConnectWait,
    ConnectionInfo, ConnectionOutcome, ConnectionState, Error, OpenNetwork, PersonalNetwork,
    ScanResult, ScanSecurity, ScanState, ScanStatus, ScanWait, VendorApInfo, VendorScanEvent,
    wifi_is_need_psk, wpa_assoc_request, MAX_SCAN_RESULTS,
};

#[test]
fn finds_ssid_information_element() {
    assert_eq!(ssid_from_ies(&[1, 1, 0x82, 0, 3, b'a', b'p', b'1']), b"ap1");
}

#[test]
fn rejects_truncated_information_element() {
    assert_eq!(ssid_from_ies(&[0, 4, b'a', b'b']), b"");
}

/// A scan result as the supplicant scan API reports one AP.
fn ap_result(name: &[u8], auth_mode: u8, pairwise: u8, channel: u32) -> ScanResult {
    let mut ssid = [0u8; 33];
    ssid[..name.len()].copy_from_slice(name);
    scan_result_from_ap(&VendorApInfo { ssid, bssid: [0; 6], auth_mode, channel, rssi: 0, flags: 0, pairwise })
}

#[test]
fn open_network_is_constructed_from_a_scan_result() {
    let mut result = ap_result(b"open", 0, 0, 0);
    result.bssid = [1, 2, 3, 4, 5, 6];
    result.frequency_mhz = 2437;

    let network = OpenNetwork::from_scan(&result).unwrap();
    assert_eq!(network.ssid(), b"open");
    assert_eq!(network.bssid(), result.bssid);
    assert_eq!(network.frequency_mhz(), 2437);
}

#[test]
fn hidden_scan_result_is_not_a_connectable_open_network() {
    assert_eq!(OpenNetwork::from_scan(&ScanResult::empty()), Err(Error::InvalidSsid));
}

#[test]
fn protected_scan_result_is_not_a_connectable_open_network() {
    let result = ap_result(b"x", 1, 0, 0);
    assert_eq!(result.security(), ScanSecurity::Protected);
    assert_eq!(OpenNetwork::from_scan(&result), Err(Error::ProtectedNetwork));
}

fn protected_result() -> ScanResult {
    ap_result(b"home", 2, 1, 6)
}

#[test]
fn personal_network_needs_wpa2_ccmp_and_a_printable_passphrase() {
    let result = protected_result();
    assert_eq!(result.channel(), 6);
    let network = PersonalNetwork::from_scan(&result, b"password1").unwrap();
    assert_eq!(network.ssid(), b"home");
    let request = wpa_assoc_request(&network);
    assert_eq!(&request.key[..10], b"password1\0");
    assert_eq!(&request.ssid[..5], b"home\0");
    assert_eq!(request.auth_mode, 2);
    assert_eq!(request.pairwise, 1);
    assert_eq!(request.channel, 6);
    assert_eq!(PersonalNetwork::from_scan(&result, b"short"), Err(Error::InvalidPassphrase));
    assert_eq!(PersonalNetwork::from_scan(&result, b"pass\nword"), Err(Error::InvalidPassphrase));
    assert_eq!(PersonalNetwork::from_scan(&result, b"password\x80"), Err(Error::InvalidPassphrase));
    assert_eq!(PersonalNetwork::from_scan(&result, b"password\x7f"), Err(Error::InvalidPassphrase));
    assert!(PersonalNetwork::from_scan(&result, b" ~~~~~~~").is_ok());
    let tkip = ap_result(b"home", 2, 2, 6);
    assert_eq!(PersonalNetwork::from_scan(&tkip, b"password1"), Err(Error::UnsupportedSecurity(2)));
    let open = ap_result(b"home", 0, 1, 6);
    assert_eq!(PersonalNetwork::from_scan(&open, b"password1"), Err(Error::OpenNetwork));
    assert_eq!(PersonalNetwork::from_scan(&ScanResult::empty(), b"password1"), Err(Error::InvalidSsid));
}

#[test]
fn scan_ssid_is_capped_at_32_bytes() {
    let long = [b'a'; 33];
    let result = ap_result(&long[..32], 0, 0, 1);
    assert_eq!(result.ssid().len(), 32);
    let mut ssid = [b'z'; 33];
    ssid[32] = b'z';
    let result = scan_result_from_ap(&VendorApInfo { ssid, bssid: [0; 6], auth_mode: 0, channel: 1, rssi: 0, flags: 0, pairwise: 0 });
    assert_eq!(result.ssid(), &[b'z'; 32][..]);
}

#[test]
fn channels_map_to_center_frequencies() {
    assert_eq!(channel_to_frequency(1), 2412);
    assert_eq!(channel_to_frequency(13), 2472);
    assert_eq!(channel_to_frequency(14), 2484);
    assert_eq!(channel_to_frequency(0), 0);
    assert_eq!(channel_to_frequency(36), 0);
}

#[test]
fn rssi_rounds_toward_zero_and_saturates() {
    assert_eq!(rssi_dbm_from_hundredths(-4250), -42);
    assert_eq!(rssi_dbm_from_hundredths(4299), 42);
    assert_eq!(rssi_dbm_from_hundredths(i32::MIN), i16::MIN);
    assert_eq!(rssi_dbm_from_hundredths(i32::MAX), i16::MAX);
}

#[test]
fn scan_results_from_vendor_records() {
    let mut ssid = [0u8; 33];
    ssid[..3].copy_from_slice(b"lab");
    let ap = VendorApInfo { ssid, bssid: [9; 6], auth_mode: 0, channel: 11, rssi: -5000, flags: 0, pairwise: 0 };
    let result = scan_result_from_ap(&ap);
    assert_eq!(result.ssid(), b"lab");
    assert_eq!(result.frequency_mhz, 2462);
    assert_eq!(result.rssi_dbm, -50);
    assert_eq!(result.security(), ScanSecurity::Open);

    let event = VendorScanEvent { bssid: [7; 6], capabilities: 0x0011, frequency: 2437, level: -6100 };
    let result = scan_result_from_event(&event, Some(&[0, 2, b'h', b'i']));
    assert_eq!(result.ssid(), b"hi");
    assert_eq!(result.security(), ScanSecurity::Protected);
    assert_eq!(result.frequency_mhz, 2437);
    assert_eq!(scan_result_from_event(&event, None).ssid(), b"");
}

#[test]
fn interface_names_stop_at_the_first_nul() {
    let mut ifname = [0u8; 17];
    ifname[..5].copy_from_slice(b"wlan0");
    assert_eq!(interface_name(&ifname), b"wlan0");
    assert!(created_interface_name_is_valid(&ifname, 5));
    assert!(!created_interface_name_is_valid(&ifname, 4));
    assert!(!created_interface_name_is_valid(&ifname, 0));
    assert!(!created_interface_name_is_valid(&ifname, 17));
    assert_eq!(nul_terminated_length(b"abc\0def", 7), 3);
    assert_eq!(nul_terminated_length(b"abcdef", 4), 4);
}

#[test]
fn connection_outcomes_and_waiting() {
    let info = ConnectionInfo { bssid: [1; 6], frequency_mhz: 2412 };
    assert_eq!(connect_result_outcome(0, [1; 6], 2412), ConnectionOutcome::Connected(info));
    assert_eq!(connect_result_outcome(17, [1; 6], 2412), ConnectionOutcome::Failed(17));
    let mut raw = [0u8; 172];
    raw[6] = 3;
    raw[7] = 1;
    assert_eq!(wpa_event_outcome(3, &raw), Some(ConnectionOutcome::Disconnected(259)));
    assert_eq!(wpa_event_outcome(9, &raw), None);

    assert_eq!(
        connect_wait_step(true, ConnectionOutcome::Connected(info), 0, 100, Some(2437)),
        ConnectWait::Finished(Ok(ConnectionInfo { bssid: [1; 6], frequency_mhz: 2437 }))
    );
    assert_eq!(
        connect_wait_step(true, ConnectionOutcome::Failed(3), 0, 100, None),
        ConnectWait::Finished(Err(Error::ConnectFailed(3)))
    );
    assert_eq!(connect_wait_step(false, ConnectionOutcome::Pending, 50, 100, None), ConnectWait::Continue);
    assert_eq!(
        connect_wait_step(false, ConnectionOutcome::Pending, 100, 100, None),
        ConnectWait::Finished(Err(Error::Timeout))
    );

    let mut state = ConnectionState::new();
    state.publish(ConnectionOutcome::Failed(1));
    assert!(!state.done);
    assert!(state.begin());
    assert!(!state.begin());
    state.publish(ConnectionOutcome::Failed(1));
    assert!(state.done);
    state.finish();
    assert!(!state.active);
}

#[test]
fn scans_reserve_slots_and_report_status() {
    let mut state = ScanState::new();
    assert_eq!(state.reserve_slot(), None);
    assert!(state.begin());
    for expected in 0..MAX_SCAN_RESULTS {
        assert_eq!(state.reserve_slot(), Some(expected));
    }
    assert_eq!(state.reserve_slot(), None);
    state.complete(2);
    assert!(state.done);
    assert_eq!(state.status, ScanStatus::Refused);
    state.finish();
    assert!(!state.active);

    assert_eq!(scan_wait_step(true, ScanStatus::Success, 40, 32, 0, 10), ScanWait::Finished(Ok(32)));
    assert_eq!(
        scan_wait_step(true, ScanStatus::Unknown(9), 0, 32, 0, 10),
        ScanWait::Finished(Err(Error::ScanFailed(ScanStatus::Unknown(9))))
    );
    assert_eq!(scan_wait_step(false, ScanStatus::Success, 0, 32, 5, 10), ScanWait::Continue);
    assert_eq!(
        scan_wait_step(false, ScanStatus::Success, 0, 32, 10, 10),
        ScanWait::Finished(Err(Error::Timeout))
    );
}

#[test]
fn only_open_and_owe_networks_need_no_psk() {
    assert_eq!(wifi_is_need_psk(0), 0);
    assert_eq!(wifi_is_need_psk(10), 0);
    assert_eq!(wifi_is_need_psk(3), 1);
    assert_eq!(wifi_is_need_psk(-1), 1);
}
