use ws63_rf::osal_queue::{
    event_matches, event_read_deadline, remaining_wait, EventGroup, EventReadAction, EventRegistry, MsgRing,
    EVENT_READ_NOK,
    MAX_EVENT_GROUPS, MAX_EVENT_WAITERS, WAITMODE_AND, WAITMODE_CLR,
};

#[test]
fn message_queue_needs_a_length_and_an_item_size() {
    assert!(MsgRing::create(0, 4).is_none());
    assert!(MsgRing::create(4, 0).is_none());
    assert!(MsgRing::create(1, 1).is_some());
}

#[test]
fn messages_come_out_in_write_order() {
    let mut ring = MsgRing::create(2, 4).unwrap();
    assert!(ring.write_copy(&[1, 2, 3, 4]));
    assert!(ring.write_copy(&[5, 6, 7, 8]));
    assert!(ring.is_full());
    assert!(!ring.write_copy(&[9, 9, 9, 9]));
    assert_eq!(ring.len(), 2);
    assert_eq!(ring.read_copy(None), Some(vec![1, 2, 3, 4]));
    assert!(ring.write_copy(&[10, 11, 12, 13]));
    assert_eq!(ring.read_copy(Some(2)), Some(vec![5, 6]));
    assert_eq!(ring.read_copy(Some(100)), Some(vec![10, 11, 12, 13]));
    assert_eq!(ring.read_copy(None), None);
}

#[test]
fn short_writes_keep_the_rest_of_the_slot() {
    let mut ring = MsgRing::create(1, 4).unwrap();
    assert!(ring.write_copy(&[1, 2, 3, 4]));
    assert_eq!(ring.read_copy(None), Some(vec![1, 2, 3, 4]));
    assert!(ring.write_copy(&[9]));
    assert_eq!(ring.read_copy(None), Some(vec![9, 2, 3, 4]));
    assert!(ring.write_copy(&[7, 7, 7, 7, 7, 7]));
    assert_eq!(ring.read_copy(None), Some(vec![7, 7, 7, 7]));
}

#[test]
fn event_masks_match_in_or_and_and_modes() {
    assert_eq!(event_matches(0b0110, 0b0011, 0), Some(0b0010));
    assert_eq!(event_matches(0b0110, 0b1001, 0), None);
    assert_eq!(event_matches(0b0110, 0b0110, WAITMODE_AND), Some(0b0110));
    assert_eq!(event_matches(0b0110, 0b0111, WAITMODE_AND), None);
    assert_eq!(event_matches(0b0110, 0, WAITMODE_AND), None);
}

#[test]
fn reads_clear_matched_bits_only_in_clear_mode() {
    let mut group = EventGroup::new();
    assert!(group.write(0b101).iter().all(|w| *w == 0));
    assert_eq!(group.begin_read(0b001, 0), Some(0b001));
    assert_eq!(group.diagnostic(7).bits, 0b101);
    assert_eq!(group.begin_read(0b001, WAITMODE_CLR), Some(0b001));
    let d = group.diagnostic(7);
    assert_eq!(d.event, 7);
    assert_eq!(d.bits, 0b100);
    assert_eq!(d.reads, 2);
    assert_eq!(d.writes, 1);
    assert_eq!(d.matches, 2);
    assert_eq!(d.last_read_mask, 0b001);
    assert_eq!(d.last_mode, WAITMODE_CLR);
    group.clear(0b100);
    assert_eq!(group.poll_event(0b111, 0), None);
}

#[test]
fn writes_name_the_waiters_they_satisfy() {
    let mut group = EventGroup::new();
    assert_eq!(group.register_waiter(0x10, 0b01, 0), Ok(None));
    assert_eq!(group.register_waiter(0x20, 0b11, WAITMODE_AND), Ok(None));
    assert!(!group.is_idle());
    let wake = group.write(0b01);
    assert_eq!(wake.len(), MAX_EVENT_WAITERS);
    assert_eq!(wake[0], 0x10);
    assert_eq!(wake[1], 0);
    let wake = group.write(0b10);
    assert_eq!(wake[1], 0x20);
    assert_eq!(group.register_waiter(0x30, 0b01, WAITMODE_CLR), Ok(Some(0b01)));
    group.unregister_waiter(0x10);
    group.unregister_waiter(0x20);
    assert!(group.is_idle());
}

#[test]
fn waiter_table_fills_up() {
    let mut group = EventGroup::new();
    for w in 1..=MAX_EVENT_WAITERS {
        assert_eq!(group.register_waiter(w, 1, 0), Ok(None));
    }
    assert_eq!(group.register_waiter(99, 1, 0), Err(()));
}

#[test]
fn event_deadlines_and_remaining_time() {
    assert_eq!(event_read_deadline(10, 5), 15);
    assert_eq!(event_read_deadline(u64::MAX, 2), 1);
    assert_eq!(remaining_wait(true, 0, 5), Some(u32::MAX));
    assert_eq!(remaining_wait(false, 10, 10), None);
    assert_eq!(remaining_wait(false, 10, 4), Some(6));
    assert_eq!(remaining_wait(false, u64::MAX, 0), Some(u32::MAX));
}

#[test]
fn registry_lists_live_groups_in_slot_order() {
    let mut registry = EventRegistry::new();
    assert!(registry.register(0xa));
    assert!(registry.register(0xb));
    assert!(registry.register(0xc));
    registry.unregister(0xb);
    assert_eq!(registry.live(8), vec![0xa, 0xc]);
    assert!(registry.register(0xd));
    assert_eq!(registry.live(8), vec![0xa, 0xd, 0xc]);
    assert_eq!(registry.live(1), vec![0xa]);
    for g in 0..MAX_EVENT_GROUPS {
        registry.register(0x100 + g);
    }
    assert!(!registry.register(0x999));
}

#[test]
fn event_read_steps_match_park_time_out_or_refuse() {
    let mut group = EventGroup::new();
    group.write(0b10);
    assert_eq!(group.read_step(0x40, 0b10, WAITMODE_CLR, false, 100, 0), EventReadAction::Return(0b10));
    assert_eq!(group.diagnostic(1).reads, 1);
    assert_eq!(group.diagnostic(1).bits, 0);
    assert_eq!(group.read_step(0x40, 0b01, 0, false, 100, 100), EventReadAction::Return(0));
    assert_eq!(group.read_step(0x40, 0b01, 0, false, 100, 40), EventReadAction::Park(60));
    assert_eq!(group.diagnostic(1).reads, 3);
    assert_eq!(group.read_woken(0x40, false), Some(EVENT_READ_NOK));
    assert_eq!(group.read_step(0x40, 0b01, 0, true, 0, 0), EventReadAction::Park(u32::MAX));
    assert_eq!(group.read_woken(0x40, true), None);
    for k in 0..MAX_EVENT_WAITERS {
        assert_eq!(group.register_waiter(0x100 + k, 0b01, 0), Ok(None));
    }
    assert_eq!(group.read_step(0x40, 0b01, 0, true, 0, 0), EventReadAction::Return(EVENT_READ_NOK));
}
