use ws63_rf::sched::{
    stack_size, stack_top, Ctx, Dispatch, Scheduler, Semaphore, TaskState, TimedDown,
    CYCLES_PER_MS, MAX_TASKS, MIN_STACK,
};

#[test]
fn stacks_have_a_minimum_size_and_an_aligned_top() {
    assert_eq!(stack_size(0), MIN_STACK);
    assert_eq!(stack_size(MIN_STACK + 1), MIN_STACK + 1);
    assert_eq!(stack_top(0x1000, 0x1000), 0x2000);
    assert_eq!(stack_top(0x1000, 0x1007), 0x2000);
    assert_eq!(stack_top(0x1003, 0x100f), 0x2010);
}

#[test]
fn first_run_context_enters_at_the_trampoline() {
    let c = Ctx::first_run(0x4000, 0x8000);
    assert_eq!(c.ra, 0x4000);
    assert_eq!(c.sp, 0x8000);
    assert_eq!(c.s, [0; 12]);
    assert_eq!(Ctx::zero().ra, 0);
}

#[test]
fn ready_tasks_run_round_robin_in_fifo_order() {
    let mut s = Scheduler::new();
    assert_eq!(s.spawn(0x100, 1, 0x9000), Some(1));
    assert_eq!(s.spawn(0x200, 2, 0xa000), Some(2));
    assert_eq!(s.state_of(0), TaskState::Running);
    assert_eq!(s.task(2).entry, 0x200);
    assert_eq!(s.task(2).arg, 2);

    assert_eq!(s.yield_current(), 0);
    assert_eq!(s.pick_next(0, 0), Dispatch::Switch { from: 0, to: 1 });
    assert_eq!(s.current_id(), 1);
    assert_eq!(s.state_of(1), TaskState::Running);
    assert_eq!(s.yield_current(), 1);
    assert_eq!(s.pick_next(1, 0), Dispatch::Switch { from: 1, to: 2 });
    assert_eq!(s.yield_current(), 2);
    assert_eq!(s.pick_next(2, 0), Dispatch::Switch { from: 2, to: 0 });
}

#[test]
fn sleeping_task_is_woken_at_its_deadline() {
    let mut s = Scheduler::new();
    s.init();
    assert_eq!(s.spawn(0x100, 0, 0x9000), Some(1));
    assert_eq!(s.sleep_current(0, 2), 0);
    assert_eq!(s.state_of(0), TaskState::Sleeping);
    assert_eq!(s.task(0).wake_at, 2 * CYCLES_PER_MS);
    assert_eq!(s.pick_next(0, 10), Dispatch::Switch { from: 0, to: 1 });
    assert_eq!(s.exit_current(), 1);
    assert_eq!(s.state_of(1), TaskState::Free);
    assert_eq!(s.pick_next(1, 2 * CYCLES_PER_MS - 1), Dispatch::Idle);
    assert_eq!(s.pick_next(1, 2 * CYCLES_PER_MS), Dispatch::Switch { from: 1, to: 0 });
    assert_eq!(s.alloc_slot(), Some(1));
}

#[test]
fn yield_with_nobody_else_ready_resumes() {
    let mut s = Scheduler::new();
    s.init();
    assert_eq!(s.sleep_current(0, 0), 0);
    assert_eq!(s.pick_next(0, 0), Dispatch::Resume);
    assert_eq!(s.state_of(0), TaskState::Running);
}

#[test]
fn task_table_fills_up() {
    let mut s = Scheduler::new();
    for expected in 1..MAX_TASKS {
        assert_eq!(s.spawn(0x100, expected, 0x9000), Some(expected));
    }
    assert_eq!(s.spawn(0x100, 0, 0x9000), None);
    assert_eq!(s.alloc_slot(), None);
}

#[test]
fn semaphore_hands_the_count_to_the_oldest_waiter() {
    let mut s = Scheduler::new();
    assert_eq!(s.spawn(0x100, 0, 0x9000), Some(1));
    let mut sem = Semaphore::new(0);
    assert!(sem.down(&mut s));
    assert_eq!(s.state_of(0), TaskState::Blocked);
    assert_eq!(s.pick_next(0, 0), Dispatch::Switch { from: 0, to: 1 });
    assert!(sem.down(&mut s));
    assert_eq!(s.pick_next(1, 0), Dispatch::Idle);

    sem.up(&mut s);
    assert_eq!(s.state_of(0), TaskState::Ready);
    assert_eq!(s.state_of(1), TaskState::Blocked);
    assert_eq!(sem.count(), 0);
    sem.up(&mut s);
    assert_eq!(s.pick_next(1, 0), Dispatch::Switch { from: 1, to: 0 });
    sem.up(&mut s);
    assert_eq!(sem.count(), 1);
    assert!(!sem.down(&mut s));
    assert_eq!(sem.count(), 0);
}

#[test]
fn bounded_semaphore_waits_poll_until_the_deadline() {
    let mut s = Scheduler::new();
    s.init();
    let mut sem = Semaphore::new(1);
    assert_eq!(sem.down_timeout(&mut s, 5, 0), TimedDown::Acquired);
    assert_eq!(sem.down_timeout(&mut s, 5, 0), TimedDown::Retry { deadline: 5 * CYCLES_PER_MS });
    assert_eq!(sem.poll_timeout(5 * CYCLES_PER_MS, 5 * CYCLES_PER_MS), TimedDown::Expired);
    assert_eq!(sem.down_timeout(&mut s, 0, 7), TimedDown::Expired);
    assert!(!sem.try_down());
    assert_eq!(sem.down_timeout(&mut s, u32::MAX, 0), TimedDown::Parked);
    assert_eq!(s.state_of(0), TaskState::Blocked);
}

#[test]
fn negative_semaphore_counts_give_nothing_until_raised() {
    let mut s = Semaphore::new(-2);
    assert!(!s.try_down());
    assert_eq!(s.count(), -2);
    let mut t = Semaphore::new(2);
    assert!(t.try_down());
    assert!(t.try_down());
    assert!(!t.try_down());
    assert_eq!(t.count(), 0);
}
