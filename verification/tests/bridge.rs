use ws63_rf::bridge::{
    dhcp_diagnostics, diagnostic_echo_reply_sequence, has_udp_ports, last_rx, last_tx,
    reset_rx_queue_diagnostics, rx_pop, rx_push, rx_queue_diagnostics, set_tx_sink,
    take_received, tx_count, tx_emit, Bridge, RxFrame, ScratchClaims, TxBuf,
    DIAGNOSTIC_ECHO_IDENTIFIER, MTU, RX_DEPTH,
};

fn udp_frame(source: u16, destination: u16) -> [u8; 42] {
    let mut frame = [0u8; 42];
    frame[12..14].copy_from_slice(&[0x08, 0x00]);
    frame[14] = 0x45;
    frame[23] = 17;
    frame[34..36].copy_from_slice(&source.to_be_bytes());
    frame[36..38].copy_from_slice(&destination.to_be_bytes());
    frame
}

#[test]
fn device_tokens_do_not_embed_mtu_sized_stack_buffers() {
    assert!(core::mem::size_of::<RxFrame>() <= 16);
    assert_eq!(core::mem::size_of::<TxBuf>(), 0);
}

#[test]
fn dhcp_diagnostics_match_only_ipv4_udp_port_direction() {
    let mut frame = [0_u8; 42];
    frame[12..14].copy_from_slice(&[0x08, 0x00]);
    frame[14] = 0x45;
    frame[23] = 17;
    frame[34..36].copy_from_slice(&68_u16.to_be_bytes());
    frame[36..38].copy_from_slice(&67_u16.to_be_bytes());
    assert!(has_udp_ports(&frame, 68, 67));
    assert!(!has_udp_ports(&frame, 67, 68));

    frame[23] = 1;
    assert!(!has_udp_ports(&frame, 68, 67));
    assert!(!has_udp_ports(&frame[..20], 68, 67));
}

#[test]
fn full_rx_queue_counts_loss_and_high_watermark() {
    let mut bridge: Bridge<u32> = Bridge::new();
    let mut frame = [0_u8; MTU];
    frame[12..14].copy_from_slice(&[0x08, 0x00]);
    frame[14] = 0x45;
    frame[23] = 1;
    frame[34] = 0;
    frame[38..40].copy_from_slice(&DIAGNOSTIC_ECHO_IDENTIFIER);
    frame[40..42].copy_from_slice(&3_u16.to_be_bytes());
    rx_push(&mut bridge, &frame);
    frame.fill(0);
    for _ in 1..RX_DEPTH {
        rx_push(&mut bridge, &frame);
    }
    rx_push(&mut bridge, &frame);

    let diagnostics = rx_queue_diagnostics(&bridge);
    assert_eq!(diagnostics.depth, RX_DEPTH);
    assert_eq!(diagnostics.pending, RX_DEPTH);
    assert_eq!(diagnostics.high_watermark, RX_DEPTH);
    assert_eq!(diagnostics.dropped, 1);
    assert_eq!(diagnostics.icmp_echo_replies, 1);
    assert_eq!(diagnostics.icmp_sequence_mask, 1 << 3);

    reset_rx_queue_diagnostics(&mut bridge);
    let diagnostics = rx_queue_diagnostics(&bridge);
    assert_eq!(diagnostics.dropped, 0);
    assert_eq!(diagnostics.icmp_echo_replies, 0);
    assert_eq!(diagnostics.icmp_sequence_mask, 0);
}

#[test]
fn received_frames_come_out_in_arrival_order() {
    let mut bridge: Bridge<u32> = Bridge::new();
    rx_push(&mut bridge, &[1, 2, 3]);
    rx_push(&mut bridge, &[4, 5]);
    let mut out = [0u8; 2];
    assert_eq!(rx_pop(&mut bridge, &mut out), Some(2));
    assert_eq!(out, [1, 2]);
    let mut out = [9u8; 4];
    assert_eq!(take_received(&mut bridge, &mut out), Some(2));
    assert_eq!(out, [4, 5, 9, 9]);
    assert_eq!(rx_pop(&mut bridge, &mut out), None);
}

#[test]
fn oversized_frames_are_ignored() {
    let mut bridge: Bridge<u32> = Bridge::new();
    let big = vec![0u8; MTU + 1];
    rx_push(&mut bridge, &big);
    assert_eq!(rx_queue_diagnostics(&bridge).pending, 0);
    assert_eq!(rx_queue_diagnostics(&bridge).dropped, 0);
}

#[test]
fn dhcp_counters_follow_direction() {
    let mut bridge: Bridge<u32> = Bridge::new();
    rx_push(&mut bridge, &udp_frame(67, 68));
    assert_eq!(tx_emit(&mut bridge, &udp_frame(68, 67)), None);
    let d = dhcp_diagnostics(&bridge);
    assert_eq!(d.server_packets, 1);
    assert_eq!(d.client_packets, 1);
    let mut prefix = [0u8; 64];
    assert_eq!(last_rx(&bridge, &mut prefix), 42);
    assert_eq!(&prefix[..42], &udp_frame(67, 68)[..]);
}

#[test]
fn transmitted_frames_are_captured_and_counted() {
    let mut bridge: Bridge<u32> = Bridge::new();
    set_tx_sink(&mut bridge, 7);
    assert_eq!(tx_emit(&mut bridge, &[0xaa, 0xbb, 0xcc]), Some(7));
    assert_eq!(tx_count(&bridge), 1);
    let mut out = [0u8; 2];
    assert_eq!(last_tx(&bridge, &mut out), 3);
    assert_eq!(out, [0xaa, 0xbb]);
}

#[test]
fn echo_reply_sequence_needs_the_probe_identifier() {
    let mut frame = [0u8; 42];
    frame[12..14].copy_from_slice(&[0x08, 0x00]);
    frame[14] = 0x45;
    frame[23] = 1;
    frame[38..40].copy_from_slice(&DIAGNOSTIC_ECHO_IDENTIFIER);
    frame[40..42].copy_from_slice(&0x0102_u16.to_be_bytes());
    assert_eq!(diagnostic_echo_reply_sequence(&frame), Some(0x0102));
    frame[34] = 8;
    assert_eq!(diagnostic_echo_reply_sequence(&frame), None);
}

#[test]
fn scratch_buffers_are_claimed_exclusively() {
    let mut claims = ScratchClaims { rx: false, tx: false };
    assert!(claims.claim_receive());
    assert!(!claims.claim_transmit());
    claims.release_tx();
    assert!(!claims.claim_receive());
    assert!(claims.claim_transmit());
    claims.release_rx();
    claims.release_tx();
    assert_eq!(claims, ScratchClaims { rx: false, tx: false });
}

#[test]
fn udp_ports_need_a_full_ipv4_header() {
    let mut frame = [0u8; 42];
    frame[12..14].copy_from_slice(&[0x08, 0x00]);
    frame[14] = 0x41;
    frame[18..20].copy_from_slice(&[0, 68]);
    frame[20..22].copy_from_slice(&[0, 67]);
    frame[23] = 17;
    assert!(!has_udp_ports(&frame, 68, 67));
    frame[14] = 0x44;
    assert!(!has_udp_ports(&frame, 68, 67));
    assert!(has_udp_ports(&udp_frame(68, 67), 68, 67));
}

#[test]
fn pending_frames_stay_within_the_high_watermark() {
    let mut bridge: Bridge<u32> = Bridge::new();
    for _ in 0..6 {
        rx_push(&mut bridge, &[1, 2, 3]);
        let d = rx_queue_diagnostics(&bridge);
        assert!(d.pending <= d.high_watermark && d.high_watermark <= d.depth);
    }
    let mut out = [0u8; 2];
    assert_eq!(take_received(&mut bridge, &mut out), Some(2));
    assert_eq!(rx_queue_diagnostics(&bridge).pending, RX_DEPTH - 1);
    assert_eq!(rx_queue_diagnostics(&bridge).high_watermark, RX_DEPTH);
    reset_rx_queue_diagnostics(&mut bridge);
    assert_eq!(rx_queue_diagnostics(&bridge).high_watermark, RX_DEPTH - 1);
}

#[test]
fn each_emit_adds_one_to_the_tx_count() {
    let mut bridge: Bridge<u32> = Bridge::new();
    for k in 1..=5u32 {
        let _ = tx_emit(&mut bridge, &[k as u8]);
        assert_eq!(tx_count(&bridge), k);
    }
}
