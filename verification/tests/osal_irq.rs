use ws63_rf::osal_irq::{
    first_bad_host_queue, frw_queue_link_valid, irq_lock_state, irq_restore_enables,
    kthread_stack_size, radio_interrupt, task_id, task_priority_valid, HostQueueWords, IrqTable,
    OsalAtomic, RadioInterrupt, IRQ_COUNT, IRQ_NOK, IRQ_OK,
};

#[test]
fn radio_interrupt_numbers() {
    assert_eq!(radio_interrupt(40), Some(RadioInterrupt::CoexWl));
    assert_eq!(radio_interrupt(45), Some(RadioInterrupt::Wlmac));
    assert_eq!(radio_interrupt(69), Some(RadioInterrupt::MacMonitor));
    assert_eq!(radio_interrupt(43), None);
}

#[test]
fn irq_handlers_are_registered_dispatched_and_freed() {
    let mut table = IrqTable::new();
    assert_eq!(table.request(IRQ_COUNT as u32, 0x100, false, 0), IRQ_NOK);
    assert_eq!(table.request(44, 0, false, 0), IRQ_NOK);
    assert_eq!(table.request(44, 0x100, true, 0), IRQ_NOK);
    assert_eq!(table.request(44, 0x100, false, 7), IRQ_OK);
    let slot = table.dispatch(44);
    assert_eq!((slot.handler, slot.arg, slot.dispatch_count), (0x100, 7, 0));
    table.dispatch(44);
    assert_eq!(table.dispatch_count(44), 2);
    assert_eq!(table.dispatch_count(IRQ_COUNT as u32), 0);
    assert_eq!(table.free(44), IRQ_OK);
    assert_eq!(table.dispatch(44).handler, 0);
    assert_eq!(table.free(IRQ_COUNT as u32), IRQ_NOK);
}

#[test]
fn interrupt_lock_keeps_only_the_machine_enable_bit() {
    assert_eq!(irq_lock_state(0x1888), 0x8);
    assert_eq!(irq_lock_state(0x1880), 0);
    assert!(irq_restore_enables(0x8));
    assert!(!irq_restore_enables(0x80));
}

#[test]
fn task_parameters() {
    assert!(task_priority_valid(0));
    assert!(task_priority_valid(31));
    assert!(!task_priority_valid(32));
    assert!(!task_priority_valid(-1));
    assert_eq!(task_id(5), 5);
    assert_eq!(task_id(usize::MAX), -1);
    assert_eq!(kthread_stack_size(0), 1);
    assert_eq!(kthread_stack_size(2048), 2048);
}

#[test]
fn queue_links_must_point_into_the_expected_windows() {
    assert!(frw_queue_link_valid(0x0018_0fa4));
    assert!(frw_queue_link_valid(0x00a0_c008));
    assert!(!frw_queue_link_valid(0x00a0_c004));
    assert!(!frw_queue_link_valid(0x00a8_0000));

    let base = 0x00a2_0000u32;
    let good = HostQueueWords { next: base + 8, prev: 0x00a1_8700, callback: 0 };
    let bad_prev = HostQueueWords { next: base + 32, prev: 0x1234, callback: 0 };
    let bad_callback = HostQueueWords { next: base + 56, prev: base + 56, callback: 0x10 };
    assert_eq!(first_bad_host_queue(base, &[good]), None);
    assert_eq!(first_bad_host_queue(base, &[good, bad_prev, bad_callback]), Some((1, 1, 0x1234)));
    assert_eq!(first_bad_host_queue(base, &[good, good, bad_callback]), Some((2, 2, 0x10)));
}

#[test]
fn atomic_counter_wraps_both_ways() {
    let mut a = OsalAtomic { counter: 0 };
    assert_eq!(a.inc_return(), 1);
    assert_eq!(a.dec_return(), 0);
    assert_eq!(a.dec_return(), -1);
    a.set(i32::MAX);
    assert_eq!(a.inc_return(), i32::MIN);
    assert_eq!(a.read(), i32::MIN);
    assert_eq!(a.dec_return(), i32::MAX);
}
