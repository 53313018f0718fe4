use ws63_rf::eloop_diag::{
    classify_auth_frame, descriptor_data_counts, descriptor_status, driver_event_payload,
    is_driver_event_consumer, is_eapol_prefix, mac_filter_registers, vap_id_of, AuthDiagnostic,
    DriverDispatchDiagnostic, DriverEventHistory, EloopTable, EloopUse, MacRxStatistics,
    SupplicantEventDiagnostic, DIAGNOSTIC_SLOTS, DRIVER_EVENT_SLOTS,
};

#[test]
fn eloop_counters_are_kept_per_queue() {
    let mut table = EloopTable::new();
    assert!(table.snapshot(8).is_empty());
    table.record(0x10, EloopUse::Post { failed: false, caller: 1, buffer: 2 });
    table.record(0x10, EloopUse::Post { failed: true, caller: 3, buffer: 4 });
    table.record(0x20, EloopUse::Read { caller: 5, buffer: 6 });
    let s = table.snapshot(8);
    assert_eq!(s.len(), 2);
    assert_eq!(s[0].event, 0x10);
    assert_eq!((s[0].posts, s[0].post_failures, s[0].last_post_caller, s[0].last_buffer), (2, 1, 3, 4));
    assert_eq!(s[1].event, 0x20);
    assert_eq!(s[1].reads, 1);
    assert_eq!(s[1].last_read_caller, 5);
    for e in 0x100..0x100 + DIAGNOSTIC_SLOTS {
        table.record(e, EloopUse::Read { caller: 0, buffer: 0 });
    }
    assert_eq!(table.snapshot(64).len(), DIAGNOSTIC_SLOTS);
}

#[test]
fn driver_event_history_lists_oldest_first() {
    let mut history = DriverEventHistory::new();
    assert!(history.snapshot(8).is_empty());
    for n in 0..(DRIVER_EVENT_SLOTS as u32 + 3) {
        history.record(n, 4, driver_event_payload(4, n * 10));
    }
    let s = history.snapshot(64);
    assert_eq!(s.len(), DRIVER_EVENT_SLOTS);
    assert_eq!(s[0].command, 3);
    assert_eq!(s[0].sequence, 4);
    assert_eq!(s[DRIVER_EVENT_SLOTS - 1].command, DRIVER_EVENT_SLOTS as u32 + 2);
    assert_eq!(s[1].payload0, 40);
    assert_eq!(history.snapshot(2).len(), 2);
    assert_eq!(driver_event_payload(3, 99), 0);
}

#[test]
fn supplicant_and_dispatch_samples() {
    let mut d = SupplicantEventDiagnostic::new();
    d.record(5, 0x10, 0x20, -1);
    d.record(6, 0x11, 0x21, 0);
    assert_eq!((d.calls, d.event, d.context, d.wifi_device, d.eloop_status), (2, 6, 0x11, 0x21, 0));

    let mut dispatch = DriverDispatchDiagnostic::new();
    dispatch.record_dispatch_registers(0x50, 1, 2, 0x100, 0x200);
    assert_eq!(dispatch.samples, 0);
    dispatch.record_dispatch_registers(0x150, 1, 2, 0x100, 0x200);
    assert_eq!((dispatch.samples, dispatch.caller, dispatch.command_register, dispatch.length_register), (1, 0x150, 1, 2));
    assert!(is_driver_event_consumer(0x100, 0x100, 0x200));
    assert!(!is_driver_event_consumer(0x200, 0x100, 0x200));
    assert!(!is_driver_event_consumer(0x100, 0x200, 0x100));
}

#[test]
fn frame_and_descriptor_fields() {
    let mut frame = [0u8; 30];
    frame[0] = 0xb0;
    frame[24] = 3;
    frame[26] = 2;
    frame[28] = 0x4c;
    assert_eq!(classify_auth_frame(&frame), Some((3, 2, 0x4c)));
    frame[0] = 0xb1;
    assert_eq!(classify_auth_frame(&frame), Some((3, 2, 0x4c)));
    frame[0] = 0x80;
    assert_eq!(classify_auth_frame(&frame), None);
    assert_eq!(classify_auth_frame(&frame[..29]), None);

    let mut prefix = [0u8; 32];
    prefix[12] = 0x88;
    prefix[13] = 0x8e;
    assert!(is_eapol_prefix(14, &prefix));
    assert!(!is_eapol_prefix(13, &prefix));
    assert_eq!(descriptor_status(0xa000_0000), 0xa);
    assert_eq!(descriptor_data_counts(0x0000_abc0), 0xabc);
    assert_eq!(vap_id_of(Some(0x1234_5672)), 2);
    assert_eq!(vap_id_of(None), 0xff);
    assert_eq!(mac_filter_registers(1), Some((0x4421_042c, 0x4421_0428, 0x4421_0430)));
    assert_eq!(mac_filter_registers(3), None);
    assert_eq!(MacRxStatistics::zero().ampdu, 0);
}

#[test]
fn authentication_counters() {
    let mut d = AuthDiagnostic::new();
    d.on_dmac_rx(None);
    d.on_dmac_rx(Some(2));
    d.on_hmac_ingress(Some(1));
    d.on_handler_result(7);
    assert_eq!((d.dmac_rx_calls, d.dmac_rx_auth_frames, d.dmac_rx_auth_seq2_frames), (2, 1, 1));
    assert_eq!((d.hmac_ingress_calls, d.hmac_ingress_auth_frames, d.hmac_ingress_auth_seq2_frames), (1, 1, 0));
    assert_eq!(d.last_handler_result, 7);
    d.on_wait_auth(None, 0, 0);
    assert_eq!((d.wait_state_calls, d.auth_frames), (1, 0));
    d.on_wait_auth(Some((3, 1, 0)), 10, 20);
    assert_eq!((d.wait_state_calls, d.auth_frames, d.last_algorithm, d.last_sequence), (2, 1, 3, 1));
}
