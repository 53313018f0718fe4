use ws63_rf::netif::{
    get_addr_status, hardware_address, pbuf_acquire, pbuf_alloc_header, pbuf_header,
    pbuf_release, rx_frame_window, transmit_check, NetifDiagnostics, NetifState, TxError,
    ERR_VAL, PBUF_HDR, PBUF_TYPE_RAM, PBUF_ZERO_COPY_RESERVE,
};

#[test]
fn pbuf_allocation_reserves_headroom_and_tailroom() {
    let h = pbuf_alloc_header(100);
    assert_eq!(h.payload, PBUF_HDR + PBUF_ZERO_COPY_RESERVE);
    assert_eq!((h.len, h.tot_len), (100, 100));
    assert_eq!(h.malloc_len, 32 + 80 + 100 + 4);
    assert_eq!(h.type_internal, PBUF_TYPE_RAM);
    assert_eq!(h.ref_count, 1);
}

#[test]
fn pbuf_header_moves_the_payload_within_the_buffer() {
    let h = pbuf_alloc_header(100);
    let grown = pbuf_header(h, 14).unwrap();
    assert_eq!(grown.payload, h.payload - 14);
    assert_eq!((grown.len, grown.tot_len), (114, 114));
    let shrunk = pbuf_header(h, -20).unwrap();
    assert_eq!(shrunk.payload, h.payload + 20);
    assert_eq!(shrunk.len, 80);
    assert_eq!(pbuf_header(h, 81), None);
    assert_eq!(pbuf_header(h, -101), None);
}

#[test]
fn pbuf_reference_counts() {
    assert_eq!(pbuf_release(3), (2, false));
    assert_eq!(pbuf_release(1), (0, true));
    assert_eq!(pbuf_release(0), (0, true));
    assert_eq!(pbuf_acquire(1), 2);
}

#[test]
fn transmit_checks_come_in_order() {
    assert_eq!(transmit_check(0, 1, 1), Err(TxError::InvalidLength));
    assert_eq!(transmit_check(70_000, 0, 0), Err(TxError::InvalidLength));
    assert_eq!(transmit_check(60, 0, 1), Err(TxError::NoInterface));
    assert_eq!(transmit_check(60, 1, 0), Err(TxError::NoDriver));
    assert_eq!(transmit_check(60, 1, 1), Ok(()));
}

#[test]
fn received_frames_skip_the_ethernet_pad() {
    assert_eq!(rx_frame_window(true, 62), Some((2, 60)));
    assert_eq!(rx_frame_window(true, 2), None);
    assert_eq!(rx_frame_window(false, 62), None);
    assert_eq!(rx_frame_window(true, 1536 + 2), Some((2, 1536)));
    assert_eq!(rx_frame_window(true, 1536 + 3), None);
}

#[test]
fn interface_state_and_counters() {
    let mut state = NetifState::new();
    assert_eq!(get_addr_status(state.find()), ERR_VAL);
    state.add(0x5000);
    assert_eq!(state.find(), 0x5000);
    assert_eq!(get_addr_status(state.find()), 0);
    state.remove(0x6000);
    assert_eq!(state.find(), 0x5000);
    state.count_rx(true);
    state.count_rx(false);
    state.count_rx(false);
    state.count_tx_failure();
    assert_eq!((state.rx_received(), state.rx_dropped(), state.tx_failed()), (1, 2, 1));
    state.remove(0x5000);
    assert_eq!(state.find(), 0);
}

#[test]
fn hardware_address_needs_six_bytes() {
    let d = NetifDiagnostics { address: 1, driver_send: 2, hardware_address_len: 6, hardware_address: [1, 2, 3, 4, 5, 6] };
    assert_eq!(hardware_address(Some(d)), Some([1, 2, 3, 4, 5, 6]));
    let short = NetifDiagnostics { hardware_address_len: 4, ..d };
    assert_eq!(hardware_address(Some(short)), None);
    assert_eq!(hardware_address(None), None);
}
