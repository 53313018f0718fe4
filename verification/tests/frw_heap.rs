use ws63_rf::frw::{pool_index, FrwRuntime, FIFO_LEN, FRW_NOK, FRW_OK, POOL_LEN};
use ws63_rf::heap_trace::{
    aligned_request, alignment_valid, free_error_code, AllocationTrace, AllocationTraceRecord,
    FreeError, FreeTrace, FreeTraceRecord, DEFAULT_ALIGNMENT, TRACE_CAPACITY,
};

#[test]
fn message_nodes_are_handed_out_lowest_first_with_their_bits() {
    let mut frw = FrwRuntime::new();
    assert_eq!(frw.fetch_msg_node(), Some((0, 8)));
    assert_eq!(frw.fetch_msg_node(), Some((1, 24)));
    frw.free_msg_node(0x1000, 0x1000, 0x40);
    assert_eq!(frw.fetch_msg_node(), Some((0, 8)));
    for _ in 2..POOL_LEN {
        assert!(frw.fetch_msg_node().is_some());
    }
    assert_eq!(frw.fetch_msg_node(), None);
    frw.free_msg_node(0x1000 + 15 * 0x40, 0x1000, 0x40);
    assert_eq!(frw.fetch_msg_node(), Some((15, 248)));
}

#[test]
fn foreign_nodes_are_not_released() {
    assert_eq!(pool_index(0x1040, 0x1000, 0x40), Some(1));
    assert_eq!(pool_index(0x1041, 0x1000, 0x40), None);
    assert_eq!(pool_index(0x0fff, 0x1000, 0x40), None);
    assert_eq!(pool_index(0x1000 + 16 * 0x40, 0x1000, 0x40), None);
    assert_eq!(pool_index(0x1000, 0x1000, 0), None);
}

#[test]
fn posted_messages_are_dispatched_in_order() {
    let mut frw = FrwRuntime::new();
    assert_eq!(frw.post(0xa), FRW_OK);
    assert_eq!(frw.post(0xb), FRW_OK);
    assert_eq!(frw.fifo_pop(), Some(0xa));
    assert_eq!(frw.post(0xc), FRW_OK);
    assert_eq!(frw.fifo_pop(), Some(0xb));
    assert_eq!(frw.fifo_pop(), Some(0xc));
    assert_eq!(frw.fifo_pop(), None);
}

#[test]
fn fifo_refuses_posts_when_full_and_wraps() {
    let mut frw = FrwRuntime::new();
    for n in 0..FIFO_LEN {
        assert_eq!(frw.post(n), FRW_OK);
    }
    assert_eq!(frw.post(999), FRW_NOK);
    assert_eq!(frw.fifo_pop(), Some(0));
    assert_eq!(frw.post(FIFO_LEN), FRW_OK);
    for n in 1..=FIFO_LEN {
        assert_eq!(frw.fifo_pop(), Some(n));
    }
    assert_eq!(frw.fifo_pop(), None);
}

#[test]
fn runtime_flags_and_counters() {
    let mut frw = FrwRuntime::new();
    assert!(!frw.is_running());
    frw.set_running(true);
    assert!(frw.is_running());
    frw.set_device_handler(0x1234);
    assert_eq!(frw.device_handler(), 0x1234);
    frw.count_dispatch();
    frw.count_dispatch();
    assert_eq!(frw.dispatched(), 2);
}

#[test]
fn heap_alignment_rules() {
    let natural = core::mem::align_of::<usize>();
    assert!(alignment_valid(natural));
    assert!(alignment_valid(64));
    assert!(!alignment_valid(natural / 2));
    assert!(!alignment_valid(24));
    assert_eq!(aligned_request(8), None);
    assert_eq!(aligned_request(DEFAULT_ALIGNMENT as u32), Some(DEFAULT_ALIGNMENT));
    assert_eq!(aligned_request(64), Some(64));
    assert_eq!(free_error_code(FreeError::Uninitialized), 1);
    assert_eq!(free_error_code(FreeError::InvalidHeader), 4);
}

#[test]
fn free_trace_rotates_through_its_slots() {
    let mut trace = FreeTrace::new();
    for n in 1..=(TRACE_CAPACITY + 2) {
        trace.record(0x1000 + n, 0x2000 + n);
    }
    let snapshot = trace.snapshot(64);
    assert_eq!(snapshot.len(), TRACE_CAPACITY);
    assert_eq!(
        snapshot[0],
        FreeTraceRecord { sequence: 17, pointer: 0x1000 + 17, caller: 0x2000 + 17 }
    );
    assert_eq!(snapshot[1].sequence, 18);
    assert_eq!(snapshot[2].sequence, 3);
    assert_eq!(trace.snapshot(2).len(), 2);
}

#[test]
fn allocation_trace_keeps_sizes() {
    let mut trace = AllocationTrace::new();
    trace.record(0x10, 32, 0x99);
    let snapshot = trace.snapshot(1);
    assert_eq!(
        snapshot,
        vec![AllocationTraceRecord { sequence: 1, pointer: 0x10, size: 32, caller: 0x99 }]
    );
    assert_eq!(trace.snapshot(TRACE_CAPACITY)[1].sequence, 0);
}

#[test]
fn local_send_refuses_null_messages() {
    let mut frw = FrwRuntime::new();
    assert_eq!(frw.send_local(0), FRW_NOK);
    assert_eq!(frw.send_local(0x40), FRW_OK);
    assert_eq!(frw.fifo_pop(), Some(0x40));
    assert_eq!(frw.fifo_pop(), None);
}
