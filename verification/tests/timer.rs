use ws63_rf::timer::{slot_of, timer_request_is_valid, TimerTable, MAX_TIMERS, OSAL_NOK, OSAL_OK};

#[test]
fn handles_are_one_based_slot_numbers() {
    assert_eq!(slot_of(0), None);
    assert_eq!(slot_of(1), Some(0));
    assert_eq!(slot_of(MAX_TIMERS), Some(MAX_TIMERS - 1));
    assert_eq!(slot_of(MAX_TIMERS + 1), None);
    assert!(timer_request_is_valid(true, 0, 10));
    assert!(!timer_request_is_valid(false, 0, 10));
    assert!(!timer_request_is_valid(true, 5, 10));
    assert!(!timer_request_is_valid(true, 0, 0));
}

#[test]
fn armed_timer_fires_once_at_its_deadline() {
    let mut table = TimerTable::new();
    let handle = table.register(0xabc, 100).unwrap();
    assert_eq!(handle, 1);
    assert_eq!(table.next_delay_ms(0), u32::MAX);
    assert_eq!(table.modify(handle, 50, 1_000), OSAL_OK);
    assert_eq!(table.next_delay_ms(1_010), 40);
    assert!(table.timeout_proc(1_049).is_empty());
    assert_eq!(table.timeout_proc(1_050), vec![0xabc]);
    assert!(table.timeout_proc(2_000).is_empty());
    assert_eq!(table.next_delay_ms(2_000), u32::MAX);
}

#[test]
fn overdue_timer_asks_for_a_one_millisecond_delay() {
    let mut table = TimerTable::new();
    let handle = table.register(7, 10).unwrap();
    assert_eq!(table.modify(handle, 10, 0), OSAL_OK);
    assert_eq!(table.next_delay_ms(500), 1);
}

#[test]
fn due_timers_come_out_in_slot_order() {
    let mut table = TimerTable::new();
    let a = table.register(0xa, 10).unwrap();
    let b = table.register(0xb, 10).unwrap();
    let c = table.register(0xc, 10).unwrap();
    assert_eq!((a, b, c), (1, 2, 3));
    assert_eq!(table.modify(c, 5, 0), OSAL_OK);
    assert_eq!(table.modify(a, 20, 0), OSAL_OK);
    assert_eq!(table.modify(b, 30, 0), OSAL_OK);
    assert_eq!(table.next_delay_ms(0), 5);
    assert_eq!(table.timeout_proc(25), vec![0xa, 0xc]);
    assert_eq!(table.timeout_proc(40), vec![0xb]);
}

#[test]
fn stop_reports_whether_the_timer_was_armed() {
    let mut table = TimerTable::new();
    let handle = table.register(1, 10).unwrap();
    assert_eq!(table.stop(handle), 0);
    assert_eq!(table.modify(handle, 10, 0), OSAL_OK);
    assert_eq!(table.stop(handle), 1);
    assert!(table.timeout_proc(100).is_empty());
    assert_eq!(table.stop(0), OSAL_NOK);
}

#[test]
fn modify_refuses_zero_intervals_and_unknown_handles() {
    let mut table = TimerTable::new();
    let handle = table.register(1, 10).unwrap();
    assert_eq!(table.modify(handle, 0, 0), OSAL_NOK);
    assert_eq!(table.modify(handle + 1, 10, 0), OSAL_NOK);
    assert_eq!(table.modify(MAX_TIMERS + 1, 10, 0), OSAL_NOK);
}

#[test]
fn destroyed_slots_are_reused_and_the_table_fills_up() {
    let mut table = TimerTable::new();
    for expected in 1..=MAX_TIMERS {
        assert_eq!(table.register(expected, 1), Some(expected));
    }
    assert_eq!(table.register(99, 1), None);
    assert_eq!(table.alloc_slot(), None);
    assert_eq!(table.destroy(5), OSAL_OK);
    assert_eq!(table.register(99, 1), Some(5));
    table.clear();
    assert_eq!(table.register(1, 1), Some(1));
}
