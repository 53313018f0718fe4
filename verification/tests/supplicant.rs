use ws63_rf::supplicant::{
    association_comeback_interval, authentication_header, build_eapol_frame,
    classify_eapol_receive, eapol_rx_frame_is_valid, is_power_of_two,
    normalize_vendor_association_status, overflow_delta, prepare_upstream_supplicant_port, sequence_before, valid_context_layout,
    vendor_result_requires_stale_state_clear, vendor_result_uses_association_reject,
    vendor_result_uses_disconnect, AuthenticationHeader, DriverContext, PortBegin,
    PortRegistration, PortState, UpstreamSupplicantPortError, ETHERNET_HEADER_LEN,
    MAX_EAPOL_PAYLOAD_LEN,
};
use ws63_rf::supp_diag::vendor_sae_pwe;
use ws63_rf::backend::RuntimeError;

const EAPOL_ETHERTYPE: [u8; 2] = [0x88, 0x8e];

#[test]
fn rejects_invalid_opaque_context_layouts() {
    let natural = core::mem::align_of::<usize>();
    assert!(valid_context_layout(1, natural));
    assert!(!valid_context_layout(0, natural));
    assert!(!valid_context_layout(1, natural.saturating_sub(1)));
    assert!(!valid_context_layout(1, natural + 1));
}

#[test]
fn builds_bounded_ethernet_eapol_frame() {
    let destination = [1, 2, 3, 4, 5, 6];
    let source = [6, 5, 4, 3, 2, 1];
    let payload = [2, 3, 0, 5];
    let mut storage = [0; ETHERNET_HEADER_LEN + MAX_EAPOL_PAYLOAD_LEN];
    let frame = build_eapol_frame(&destination, &source, &payload, &mut storage).unwrap();
    assert_eq!(&frame[..6], &destination);
    assert_eq!(&frame[6..12], &source);
    assert_eq!(&frame[12..14], &EAPOL_ETHERTYPE);
    assert_eq!(&frame[14..], &payload);
}

#[test]
fn rejects_empty_or_oversized_eapol_payload() {
    let mut storage = [0; ETHERNET_HEADER_LEN + MAX_EAPOL_PAYLOAD_LEN];
    assert!(build_eapol_frame(&[0; 6], &[0; 6], &[], &mut storage).is_none());
    assert!(build_eapol_frame(&[0; 6], &[0; 6], &[0; MAX_EAPOL_PAYLOAD_LEN + 1], &mut storage).is_none());
}

#[test]
fn ws63_empty_eapol_sentinel_ends_the_current_drain_batch() {
    assert_eq!(classify_eapol_receive(0), Ok(true));
    assert_eq!(classify_eapol_receive(0xffff), Ok(false));
    assert_eq!(classify_eapol_receive(-1), Err(-1));
    assert_eq!(classify_eapol_receive(-22), Err(-22));
    assert_eq!(classify_eapol_receive(1), Err(1));
}

#[test]
fn parses_only_public_authentication_header_fields() {
    let mut frame = [0xa5; 64];
    frame[0] = 0xb0;
    frame[1] = 0;
    frame[24..26].copy_from_slice(&3_u16.to_le_bytes());
    frame[26..28].copy_from_slice(&2_u16.to_le_bytes());
    frame[28..30].copy_from_slice(&76_u16.to_le_bytes());
    assert_eq!(
        authentication_header(&frame),
        Some(AuthenticationHeader { algorithm: 3, transaction: 2, status: 76 })
    );

    frame[0] = 0xd0;
    assert_eq!(authentication_header(&frame), None);
    assert_eq!(authentication_header(&frame[..29]), None);
}

#[test]
fn normalizes_only_vendor_offset_association_status_codes() {
    assert_eq!(normalize_vendor_association_status(0), 0);
    assert_eq!(normalize_vendor_association_status(30), 30);
    assert_eq!(normalize_vendor_association_status(8_030), 30);
    assert_eq!(normalize_vendor_association_status(8_053), 53);
    assert_eq!(normalize_vendor_association_status(5_203), 5_203);
    assert_eq!(normalize_vendor_association_status(8_256), 8_256);
}

#[test]
fn parses_temporary_reject_interval_and_matches_vendor_event_oracle() {
    let response = [1, 1, 0xaa, 56, 5, 3, 0x34, 0x12, 0, 0];
    assert_eq!(association_comeback_interval(&response), Some(0x1234));
    assert_eq!(association_comeback_interval(&[]), None);
    assert!(!vendor_result_uses_association_reject(8_030));
    assert!(vendor_result_requires_stale_state_clear(8_030));
    assert!(!vendor_result_requires_stale_state_clear(30));
    assert!(!vendor_result_requires_stale_state_clear(8_053));
    assert!(vendor_result_uses_disconnect(8_030));
    assert!(vendor_result_uses_disconnect(30));
    assert!(!vendor_result_uses_disconnect(8_053));
    assert!(vendor_result_uses_association_reject(8_053));
    assert!(vendor_result_uses_association_reject(7_016));
    assert!(!vendor_result_uses_disconnect(0));
}

#[test]
fn maps_hostap_sae_pwe_to_ws63_uapi_values() {
    let (hunt_and_peck, hash_to_element, both) = (0u8, 1u8, 2u8);
    assert_eq!(vendor_sae_pwe(hunt_and_peck, hunt_and_peck, hash_to_element, both), Some(1));
    assert_eq!(vendor_sae_pwe(hash_to_element, hunt_and_peck, hash_to_element, both), Some(2));
    assert_eq!(vendor_sae_pwe(both, hunt_and_peck, hash_to_element, both), Some(3));
    assert_eq!(vendor_sae_pwe(3, hunt_and_peck, hash_to_element, both), None);
}

#[test]
fn comeback_interval_needs_an_association_comeback_element() {
    assert_eq!(association_comeback_interval(&[56, 5, 2, 0x34, 0x12, 0, 0]), None);
    assert_eq!(association_comeback_interval(&[56, 4, 3, 0x34, 0x12, 0]), None);
    assert_eq!(association_comeback_interval(&[56, 5, 3, 0x78, 0x56, 0x34, 0x12]), Some(0x1234_5678));
}

#[test]
fn sequence_order_survives_wraparound() {
    assert!(sequence_before(1, 2));
    assert!(!sequence_before(2, 1));
    assert!(sequence_before(u32::MAX, 0));
    assert!(!sequence_before(0, u32::MAX));
    assert!(!sequence_before(5, 5));
    assert_eq!(overflow_delta(3, 3), None);
    assert_eq!(overflow_delta(5, 3), Some(2));
    assert_eq!(overflow_delta(1, u32::MAX), Some(2));
}

#[test]
fn powers_of_two_and_eapol_frames() {
    assert!(is_power_of_two(1));
    assert!(is_power_of_two(64));
    assert!(!is_power_of_two(0));
    assert!(!is_power_of_two(12));
    let mut frame = [0u8; 20];
    frame[12] = 0x88;
    frame[13] = 0x8e;
    assert!(eapol_rx_frame_is_valid(&frame, 20));
    assert!(!eapol_rx_frame_is_valid(&frame, 14));
    assert!(!eapol_rx_frame_is_valid(&frame, 21));
}

#[test]
fn port_registration_installs_once_and_rolls_back() {
    let mut port = PortRegistration { state: PortState::Free, context: DriverContext::new() };
    assert_eq!(port.begin(b""), Err(UpstreamSupplicantPortError::InvalidInterfaceName));
    assert_eq!(port.begin(b"wl\0n0"), Err(UpstreamSupplicantPortError::InvalidInterfaceName));
    assert_eq!(port.begin(b"wlan0"), Ok(PortBegin::Install));
    assert_eq!(port.begin(b"wlan0"), Err(UpstreamSupplicantPortError::Busy));
    assert_eq!(port.os_installed(0), Ok(()));
    assert_eq!(port.driver_installed(0), Ok(()));
    assert_eq!(port.state, PortState::Ready);
    assert_eq!(port.begin(b"wlan0"), Ok(PortBegin::AlreadyReady));
    assert_eq!(port.begin(b"wlan1"), Err(UpstreamSupplicantPortError::InterfaceConflict));
    assert!(port.context.matches(b"wlan0"));
    assert_eq!(&port.context.ifname()[..6], b"wlan0\0");

    let mut port = PortRegistration { state: PortState::Free, context: DriverContext::new() };
    assert_eq!(port.begin(b"wlan0"), Ok(PortBegin::Install));
    assert_eq!(port.os_installed(-5), Err(UpstreamSupplicantPortError::Abi(-5)));
    assert_eq!(port.state, PortState::Free);
    assert_eq!(port.begin(b"wlan0"), Ok(PortBegin::Install));
    assert_eq!(port.driver_installed(-2), Err(-2));
    assert_eq!(
        port.rolled_back(-2, -9),
        UpstreamSupplicantPortError::Rollback { install: -2, rollback: -9 }
    );
    assert_eq!(port.begin(b"wlan0"), Err(UpstreamSupplicantPortError::Poisoned));
}

#[test]
fn rejects_registration_before_runtime_installation() {
    let mut port = PortRegistration { state: PortState::Free, context: DriverContext::new() };
    assert_eq!(
        prepare_upstream_supplicant_port(&mut port, Err(RuntimeError::NotInstalled), b"wlan0"),
        Err(UpstreamSupplicantPortError::Runtime(RuntimeError::NotInstalled))
    );
    assert_eq!(port.state, PortState::Free);
    assert!(!port.context.matches(b"wlan0"));
}

#[test]
fn prepared_port_registration_is_idempotent() {
    let mut port = PortRegistration { state: PortState::Free, context: DriverContext::new() };
    assert_eq!(prepare_upstream_supplicant_port(&mut port, Ok(()), b"wlan0"), Ok(PortBegin::Install));
    assert_eq!(port.os_installed(0), Ok(()));
    assert_eq!(port.driver_installed(0), Ok(()));
    assert_eq!(prepare_upstream_supplicant_port(&mut port, Ok(()), b"wlan0"), Ok(PortBegin::AlreadyReady));
    assert_eq!(prepare_upstream_supplicant_port(&mut port, Ok(()), b"wlan0"), Ok(PortBegin::AlreadyReady));
    assert_eq!(port.state, PortState::Ready);
    assert_eq!(
        prepare_upstream_supplicant_port(&mut port, Ok(()), b"eth0"),
        Err(UpstreamSupplicantPortError::InterfaceConflict)
    );
}
