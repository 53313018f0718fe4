use ws63_rf::osal_wait::{
    timeout_wait_start, timeout_wait_step, wait_step, wait_success_result, WaitDiagnostics,
    WaitEvent, WaitStart, WaitStep, OSAL_FAILURE, WAIT_DIAGNOSTIC_SLOTS, WAIT_OK,
};

#[test]
fn timeout_wait_reports_remaining_time_or_one_at_deadline() {
    assert_eq!(wait_success_result(false, 120, 40), 80);
    assert_eq!(wait_success_result(false, 120, 120), 1);
    assert_eq!(wait_success_result(false, 120, 121), 1);
    assert_eq!(wait_success_result(true, 0, u64::MAX), 1);
}

#[test]
fn remaining_time_saturates_at_i32_max() {
    assert_eq!(wait_success_result(false, u64::MAX, 0), i32::MAX);
}

#[test]
fn bounded_wait_start_validates_the_timeout() {
    assert_eq!(timeout_wait_start(0x8000_0000, true, 0), WaitStart::Done(OSAL_FAILURE));
    assert_eq!(timeout_wait_start(50, false, 0), WaitStart::Done(50));
    assert_eq!(timeout_wait_start(u32::MAX, false, 0), WaitStart::Done(i32::MAX));
    assert_eq!(timeout_wait_start(0, true, 10), WaitStart::CheckOnce);
    assert_eq!(timeout_wait_start(50, true, 10), WaitStart::Loop { deadline: 60 });
    assert_eq!(timeout_wait_start(50, true, u64::MAX - 1), WaitStart::Loop { deadline: u64::MAX });
}

#[test]
fn bounded_wait_steps_park_until_the_deadline() {
    assert_eq!(timeout_wait_step(true, false, 100, 30), WaitStep::Done(70));
    assert_eq!(timeout_wait_step(false, true, 100, 30), WaitStep::Park(u32::MAX));
    assert_eq!(timeout_wait_step(false, false, 100, 30), WaitStep::Park(70));
    assert_eq!(timeout_wait_step(false, false, 100, 100), WaitStep::Done(0));
    assert_eq!(wait_step(Some(false)), WaitStep::Park(u32::MAX));
    assert_eq!(wait_step(Some(true)), WaitStep::Done(WAIT_OK));
    assert_eq!(wait_step(None), WaitStep::Done(WAIT_OK));
}

#[test]
fn wait_diagnostics_count_per_object_and_free_on_forget() {
    let mut d = WaitDiagnostics::new();
    assert!(d.snapshot(8).is_empty());
    d.record(0x100, WaitEvent::Created { semaphore: 0x200 });
    d.record(0x100, WaitEvent::Block { predicate: 1, parameter: 2, task: 3, caller: 4 });
    d.record(0x100, WaitEvent::Wakeup { task: 5, caller: 6 });
    d.record(0x300, WaitEvent::Ready { predicate: 7, parameter: 8 });
    let s = d.snapshot(8);
    assert_eq!(s.len(), 2);
    assert_eq!(s[0].wait, 0x100);
    assert_eq!(s[0].semaphore, 0x200);
    assert_eq!(s[0].blocks, 1);
    assert_eq!(s[0].wakeups, 1);
    assert_eq!(s[0].last_wait_task, 3);
    assert_eq!(s[0].last_wake_caller, 6);
    assert_eq!(s[1].wait, 0x300);
    assert_eq!(s[1].ready_checks, 1);
    assert_eq!(s[1].last_wait_task, usize::MAX);
    assert_eq!(d.snapshot(1).len(), 1);
    d.forget(0x100);
    let s = d.snapshot(8);
    assert_eq!(s.len(), 1);
    assert_eq!(s[0].wait, 0x300);
}

#[test]
fn wait_diagnostics_drop_events_when_full() {
    let mut d = WaitDiagnostics::new();
    for w in 1..=WAIT_DIAGNOSTIC_SLOTS {
        d.record(w, WaitEvent::Created { semaphore: w });
    }
    d.record(0x999, WaitEvent::Created { semaphore: 1 });
    let s = d.snapshot(64);
    assert_eq!(s.len(), WAIT_DIAGNOSTIC_SLOTS);
    assert!(s.iter().all(|r| r.wait != 0x999));
}
