use ws63_rf::event_queues::{
    ExternalAuthEvent, ExternalAuthQueue, LinkEventQueue, LinkMeta, MgmtRxQueue, ScanEventQueue,
    ScanMeta, EXTERNAL_AUTH_QUEUE_DEPTH, LINK_EVENT_ASSOCIATE, LINK_EVENT_DISCONNECT,
    LINK_EVENT_QUEUE_DEPTH, MAX_MGMT_FRAME_LEN, MAX_SCAN_RESULTS, MGMT_RX_QUEUE_DEPTH,
    SCAN_EVENT_DONE, SCAN_EVENT_RESULT,
};

const ABI_VERSION: u32 = 1;
const SCAN_IE_CAPACITY: usize = 1024;

fn result_meta(index: usize) -> ScanMeta {
    ScanMeta {
        kind: SCAN_EVENT_RESULT,
        capabilities: 0,
        flags: 0,
        bssid: [index as u8; 6],
        frequency_mhz: 2412,
        beacon_interval: 100,
        quality: 0,
        level_mbm: -4000,
        age_ms: 0,
        ie_len: 0,
        beacon_ie_len: 0,
        status: 0,
    }
}

#[test]
fn management_queue_is_bounded_and_fifo() {
    let mut queue = MgmtRxQueue::new();
    for index in 0..MGMT_RX_QUEUE_DEPTH {
        assert!(queue.enqueue(2412 + index as u32, -30, &[index as u8; 4]));
    }
    assert!(!queue.enqueue(5200, -40, &[0xaa; 4]));
    assert_eq!(queue.dropped(), 1);
    for index in 0..MGMT_RX_QUEUE_DEPTH {
        let slot = queue.take_oldest().unwrap();
        let frame = queue.frame(slot);
        assert_eq!(frame.frequency_mhz, 2412 + index as u32);
        assert_eq!(frame.bytes, vec![index as u8; 4]);
        queue.release(slot);
    }
    assert!(!queue.has_pending());
}

#[test]
fn management_queue_rejects_invalid_lengths() {
    let mut queue = MgmtRxQueue::new();
    assert!(!queue.enqueue(2412, -30, &[]));
    assert!(!queue.enqueue(2412, -30, &[0; MAX_MGMT_FRAME_LEN + 1]));
    assert_eq!(queue.dropped(), 2);
    assert!(queue.take_oldest().is_none());
}

#[test]
fn scan_queue_preserves_event_order_and_deep_copies() {
    let mut queue = ScanEventQueue::new(SCAN_IE_CAPACITY);
    let mut ies = [1, 2, 3, 4];
    assert!(queue.enqueue_result(
        ScanMeta {
            kind: SCAN_EVENT_RESULT,
            capabilities: 0x10,
            flags: 7,
            bssid: [1, 2, 3, 4, 5, 6],
            frequency_mhz: 2412,
            beacon_interval: 100,
            quality: 20,
            level_mbm: -4200,
            age_ms: 3,
            ie_len: 3,
            beacon_ie_len: 1,
            status: 0,
        },
        &ies,
    ));
    ies.fill(0xff);
    assert!(queue.enqueue_done(2));
    let slot = queue.take_oldest().unwrap();
    let result = queue.event(slot);
    assert_eq!(result.meta.frequency_mhz, 2412);
    assert_eq!(result.ies, vec![1, 2, 3, 4]);
    queue.release(slot);
    let slot = queue.take_oldest().unwrap();
    let done = queue.event(slot);
    assert_eq!(done.meta.kind, SCAN_EVENT_DONE);
    assert_eq!(done.meta.status, 2);
    queue.release(slot);
}

#[test]
fn scan_queue_reserves_done_slot_when_results_are_truncated() {
    let mut queue = ScanEventQueue::new(SCAN_IE_CAPACITY);
    queue.begin_transaction();
    for index in 0..MAX_SCAN_RESULTS as usize + 1 {
        assert!(queue.enqueue_result(result_meta(index), &[]));
    }
    assert_eq!(queue.truncated_results, 1);
    assert_eq!(queue.dropped(), 0);
    assert!(queue.enqueue_done(0));

    let mut results = 0;
    while let Some(slot) = queue.take_oldest() {
        if queue.event(slot).meta.kind == SCAN_EVENT_RESULT {
            results += 1;
        } else {
            assert_eq!(queue.event(slot).meta.kind, SCAN_EVENT_DONE);
        }
        queue.release(slot);
    }
    assert_eq!(results, MAX_SCAN_RESULTS);
}

#[test]
fn scan_queue_drops_malformed_results() {
    let mut queue = ScanEventQueue::new(4);
    let mut meta = result_meta(0);
    meta.ie_len = 2;
    assert!(!queue.enqueue_result(meta, &[1]));
    meta.ie_len = 5;
    assert!(!queue.enqueue_result(meta, &[0; 5]));
    let mut done_kind = result_meta(0);
    done_kind.kind = SCAN_EVENT_DONE;
    assert!(!queue.enqueue_result(done_kind, &[]));
    assert_eq!(queue.dropped(), 3);
    assert!(!queue.has_pending());
}

#[test]
fn link_queue_is_bounded_and_keeps_both_ie_sets() {
    let mut queue = LinkEventQueue::new();
    for index in 0..LINK_EVENT_QUEUE_DEPTH {
        assert!(queue.enqueue(
            LinkMeta {
                kind: LINK_EVENT_ASSOCIATE,
                status_or_reason: index as u16,
                frequency_mhz: 2437,
                bssid: [index as u8; 6],
                first_len: 2,
                second_len: 3,
            },
            &[1, 2],
            &[3, 4, 5],
        ));
    }
    assert!(!queue.enqueue(
        LinkMeta {
            kind: LINK_EVENT_DISCONNECT,
            status_or_reason: 3,
            frequency_mhz: 0,
            bssid: [0; 6],
            first_len: 0,
            second_len: 0,
        },
        &[],
        &[],
    ));
    assert_eq!(queue.dropped(), 1);
    let slot = queue.take_oldest().unwrap();
    let event = queue.event(slot);
    assert_eq!(event.meta.status_or_reason, 0);
    assert_eq!(event.first, vec![1, 2]);
    assert_eq!(event.second, vec![3, 4, 5]);
    queue.release(slot);
}

#[test]
fn external_auth_queue_is_bounded_and_deep_copies_events() {
    let mut queue = ExternalAuthQueue::new();
    for index in 0..EXTERNAL_AUTH_QUEUE_DEPTH {
        let mut event = ExternalAuthEvent {
            abi_version: ABI_VERSION,
            action: 0,
            ssid_len: 4,
            bssid: [index as u8; 6],
            status: 0,
            key_mgmt_suite: 0x000f_ac08,
            pmkid_present: 1,
            reserved: [0; 3],
            ssid: [0; 32],
            pmkid: [index as u8; 16],
        };
        event.ssid[..4].copy_from_slice(b"test");
        assert!(queue.enqueue(event));
    }
    assert!(!queue.enqueue(ExternalAuthEvent {
        abi_version: ABI_VERSION,
        action: 1,
        ssid_len: 0,
        bssid: [0; 6],
        status: 1,
        key_mgmt_suite: 0,
        pmkid_present: 0,
        reserved: [0; 3],
        ssid: [0; 32],
        pmkid: [0; 16],
    }));
    assert_eq!(queue.dropped(), 1);

    for index in 0..EXTERNAL_AUTH_QUEUE_DEPTH {
        let slot = queue.take_oldest().unwrap();
        let event = queue.event(slot);
        assert_eq!(event.bssid, [index as u8; 6]);
        assert_eq!(&event.ssid[..event.ssid_len as usize], b"test");
        assert_eq!(event.pmkid, [index as u8; 16]);
        queue.release(slot);
    }
    assert!(!queue.has_pending());
}

#[test]
fn freed_slots_are_reused_in_order() {
    let mut queue = LinkEventQueue::new();
    let meta = |reason: u16| LinkMeta {
        kind: LINK_EVENT_DISCONNECT,
        status_or_reason: reason,
        frequency_mhz: 0,
        bssid: [0; 6],
        first_len: 0,
        second_len: 0,
    };
    for reason in 0..LINK_EVENT_QUEUE_DEPTH as u16 {
        assert!(queue.enqueue(meta(reason), &[], &[]));
    }
    let slot = queue.take_oldest().unwrap();
    assert_eq!(queue.event(slot).meta.status_or_reason, 0);
    queue.release(slot);
    assert!(queue.enqueue(meta(99), &[], &[]));
    let mut order = Vec::new();
    while let Some(slot) = queue.take_oldest() {
        order.push(queue.event(slot).meta.status_or_reason);
        queue.release(slot);
    }
    assert_eq!(order, vec![1, 2, 3, 99]);
}
