//! Condition waits: a task parks on a wait object's semaphore until a
//! predicate holds, and re-checks it after every wake-up. This module holds
//! the decisions of the bounded wait and the per-object counters.
use vstd::prelude::*;
use crate::bytes::sat_inc;

verus! {

/// Status of an invalid wait request.
pub const OSAL_FAILURE: i32 = -1;
/// Status of a satisfied wait.
pub const WAIT_OK: i32 = 0;
/// Wait objects tracked for diagnostics.
pub const WAIT_DIAGNOSTIC_SLOTS: usize = 16;

/// Result of a bounded wait whose condition held at time `now`: 1 for an
/// unbounded wait, else the milliseconds left before `deadline`, at least 1
/// and at most `i32::MAX`.
pub open spec fn spec_wait_success_result(forever: bool, deadline: u64, now: u64) -> i32 {
    if forever {
        1
    } else if deadline <= now {
        1
    } else if deadline - now > i32::MAX {
        i32::MAX
    } else {
        (deadline - now) as i32
    }
}

/// What a satisfied bounded wait returns.
pub fn wait_success_result(forever: bool, deadline: u64, now: u64) -> (r: i32)
    ensures
        r == spec_wait_success_result(forever, deadline, now),
        1 <= r,
{
    if forever {
        return 1;
    }
    let left = deadline.saturating_sub(now);
    if left < 1 {
        1
    } else if left > i32::MAX as u64 {
        i32::MAX
    } else {
        left as i32
    }
}

/// How a bounded wait starts, before any parking.
#[derive(Clone, Copy, Debug, PartialEq, Eq, Structural)]
pub enum WaitStart {
    /// Finished with this status.
    Done(i32),
    /// Evaluate the predicate in a loop with [`timeout_wait_step`] against
    /// this deadline.
    Loop { deadline: u64 },
    /// Evaluate the predicate once: the result is whether it holds.
    CheckOnce,
}

/// Validate a bounded wait of `timeout_ms` (`u32::MAX` = forever) starting at
/// `start`: a finite timeout above `i32::MAX` is invalid; without a predicate
/// the wait succeeds at once with the whole timeout; a zero timeout checks
/// the predicate once.
pub fn timeout_wait_start(timeout_ms: u32, has_predicate: bool, start: u64) -> (r: WaitStart)
    ensures
        timeout_ms != u32::MAX && timeout_ms > i32::MAX ==> r == WaitStart::Done(OSAL_FAILURE),
        (timeout_ms == u32::MAX || timeout_ms <= i32::MAX) ==> {
            &&& !has_predicate ==> r == WaitStart::Done(
                if timeout_ms == u32::MAX { i32::MAX } else { timeout_ms as i32 },
            )
            &&& has_predicate && timeout_ms == 0 ==> r == WaitStart::CheckOnce
            &&& has_predicate && timeout_ms != 0 ==> r == (WaitStart::Loop {
                deadline: if start + timeout_ms > u64::MAX { u64::MAX } else { (start + timeout_ms) as u64 },
            })
        },
{
    let forever = timeout_ms == u32::MAX;
    if !forever && timeout_ms > i32::MAX as u32 {
        return WaitStart::Done(OSAL_FAILURE);
    }
    if !has_predicate {
        return WaitStart::Done(if forever { i32::MAX } else { timeout_ms as i32 });
    }
    if timeout_ms == 0 {
        return WaitStart::CheckOnce;
    }
    WaitStart::Loop { deadline: start.saturating_add(timeout_ms as u64) }
}

/// One turn of a wait loop.
#[derive(Clone, Copy, Debug, PartialEq, Eq, Structural)]
pub enum WaitStep {
    /// Return this status.
    Done(i32),
    /// Park on the semaphore for at most this many milliseconds
    /// (`u32::MAX` = forever), then evaluate the predicate again.
    Park(u32),
}

/// A turn of a bounded wait at time `now`, given whether the predicate holds:
/// success with [`wait_success_result`], time-out (0) once the deadline has
/// passed, else park for the time left.
pub fn timeout_wait_step(ready: bool, forever: bool, deadline: u64, now: u64) -> (r: WaitStep)
    ensures
        ready ==> r == WaitStep::Done(spec_wait_success_result(forever, deadline, now)),
        !ready && forever ==> r == WaitStep::Park(u32::MAX),
        !ready && !forever && now >= deadline ==> r == WaitStep::Done(0),
        !ready && !forever && now < deadline ==> r == WaitStep::Park(
            (if deadline - now > u32::MAX { u32::MAX as int } else { deadline - now }) as u32,
        ),
{
    if ready {
        return WaitStep::Done(wait_success_result(forever, deadline, now));
    }
    if forever {
        return WaitStep::Park(u32::MAX);
    }
    if now >= deadline {
        return WaitStep::Done(0);
    }
    let left = deadline - now;
    WaitStep::Park(if left > u32::MAX as u64 { u32::MAX } else { left as u32 })
}

/// A turn of an unbounded wait: done once the predicate holds (or when there
/// is none), else park until woken.
pub fn wait_step(predicate: Option<bool>) -> (r: WaitStep)
    ensures
        predicate matches Some(false) ==> r == WaitStep::Park(u32::MAX),
        !(predicate matches Some(false)) ==> r == WaitStep::Done(WAIT_OK),
{
    match predicate {
        Some(false) => WaitStep::Park(u32::MAX),
        _ => WaitStep::Done(WAIT_OK),
    }
}

/// Counters of one wait object.
#[derive(Clone, Copy, Debug, PartialEq, Eq, Structural)]
pub struct WaitDiagnostic {
    pub wait: usize,
    pub semaphore: usize,
    pub predicate: usize,
    pub parameter: usize,
    pub predicate_result: i32,
    pub blocks: u32,
    pub wakeups: u32,
    pub ready_checks: u32,
    pub last_wait_task: usize,
    pub last_wake_task: usize,
    pub last_wait_caller: usize,
    pub last_wake_caller: usize,
}

/// A fresh record for wait object `wait` (`wait` 0: a free slot).
pub open spec fn fresh_diagnostic(wait: usize) -> WaitDiagnostic {
    WaitDiagnostic {
        wait,
        semaphore: 0,
        predicate: 0,
        parameter: 0,
        predicate_result: 0,
        blocks: 0,
        wakeups: 0,
        ready_checks: 0,
        last_wait_task: usize::MAX,
        last_wake_task: usize::MAX,
        last_wait_caller: 0,
        last_wake_caller: 0,
    }
}

fn fresh(wait: usize) -> (d: WaitDiagnostic)
    ensures
        d == fresh_diagnostic(wait),
{
    WaitDiagnostic {
        wait,
        semaphore: 0,
        predicate: 0,
        parameter: 0,
        predicate_result: 0,
        blocks: 0,
        wakeups: 0,
        ready_checks: 0,
        last_wait_task: usize::MAX,
        last_wake_task: usize::MAX,
        last_wait_caller: 0,
        last_wake_caller: 0,
    }
}

/// An update applied to a wait object's record.
#[derive(Clone, Copy, Debug, PartialEq, Eq, Structural)]
pub enum WaitEvent {
    /// The object got its semaphore.
    Created { semaphore: usize },
    /// A task parks: predicate, parameter, task and caller.
    Block { predicate: usize, parameter: usize, task: usize, caller: usize },
    /// The predicate held.
    Ready { predicate: usize, parameter: usize },
    /// A wake-up: task and caller.
    Wakeup { task: usize, caller: usize },
}

/// A record after an event.
pub open spec fn apply_event(d: WaitDiagnostic, e: WaitEvent) -> WaitDiagnostic {
    match e {
        WaitEvent::Created { semaphore } => WaitDiagnostic { semaphore, ..d },
        WaitEvent::Block { predicate, parameter, task, caller } => WaitDiagnostic {
            predicate,
            parameter,
            blocks: sat_inc(d.blocks),
            last_wait_task: task,
            last_wait_caller: caller,
            ..d
        },
        WaitEvent::Ready { predicate, parameter } => WaitDiagnostic {
            predicate,
            parameter,
            ready_checks: sat_inc(d.ready_checks),
            ..d
        },
        WaitEvent::Wakeup { task, caller } => WaitDiagnostic {
            wakeups: sat_inc(d.wakeups),
            last_wake_task: task,
            last_wake_caller: caller,
            ..d
        },
    }
}

/// Index of the record of `wait`, else of the first free record.
pub open spec fn record_index(slots: Seq<WaitDiagnostic>, wait: usize) -> Option<int> {
    if exists|i: int| 0 <= i < slots.len() && slots[i].wait == wait {
        Some(choose|i: int| 0 <= i < slots.len() && slots[i].wait == wait && forall|j: int| 0 <= j < i ==> slots[j].wait != wait)
    } else if exists|i: int| 0 <= i < slots.len() && slots[i].wait == 0 {
        Some(choose|i: int| 0 <= i < slots.len() && slots[i].wait == 0 && forall|j: int| 0 <= j < i ==> slots[j].wait != 0)
    } else {
        None
    }
}

/// Per-object wait counters.
pub struct WaitDiagnostics {
    slots: Vec<WaitDiagnostic>,
}

impl WaitDiagnostics {
    /// The records (`wait` 0 = free).
    pub closed spec fn view(&self) -> Seq<WaitDiagnostic> {
        self.slots@
    }

    /// All records free.
    pub fn new() -> (d: Self)
        ensures
            d@ == Seq::new(WAIT_DIAGNOSTIC_SLOTS as nat, |i: int| fresh_diagnostic(0)),
    {
        let mut slots: Vec<WaitDiagnostic> = Vec::new();
        let mut i: usize = 0;
        while i < WAIT_DIAGNOSTIC_SLOTS
            invariant
                i <= WAIT_DIAGNOSTIC_SLOTS,
                slots@ == Seq::new(i as nat, |k: int| fresh_diagnostic(0)),
            decreases WAIT_DIAGNOSTIC_SLOTS - i,
        {
            slots.push(fresh(0));
            i += 1;
            assert(slots@ =~= Seq::new(i as nat, |k: int| fresh_diagnostic(0)));
        }
        WaitDiagnostics { slots }
    }

    /// Index of the record of `wait`, else of the first free record.
    fn find_record(&self, wait: usize) -> (r: Option<usize>)
        requires
            wait != 0,
        ensures
            r is None ==> record_index(self@, wait) is None,
            r matches Some(i) ==> record_index(self@, wait) == Some(i as int) && i < self@.len(),
    {
        let mut i: usize = 0;
        while i < self.slots.len()
            invariant
                i <= self.slots@.len(),
                forall|j: int| 0 <= j < i ==> self@[j].wait != wait,
            decreases self.slots@.len() - i,
        {
            if self.slots[i].wait == wait {
                proof {
                    let c = choose|c: int| 0 <= c < self@.len() && self@[c].wait == wait && forall|j: int| 0 <= j < c ==> self@[j].wait != wait;
                    assert(0 <= i < self@.len() && self@[i as int].wait == wait);
                    assert(c == i);
                }
                return Some(i);
            }
            i += 1;
        }
        i = 0;
        while i < self.slots.len()
            invariant
                i <= self.slots@.len(),
                forall|j: int| 0 <= j < self@.len() ==> self@[j].wait != wait,
                forall|j: int| 0 <= j < i ==> self@[j].wait != 0,
            decreases self.slots@.len() - i,
        {
            if self.slots[i].wait == 0 {
                proof {
                    let c = choose|c: int| 0 <= c < self@.len() && self@[c].wait == 0 && forall|j: int| 0 <= j < c ==> self@[j].wait != 0;
                    assert(0 <= i < self@.len() && self@[i as int].wait == 0);
                    assert(c == i);
                }
                return Some(i);
            }
            i += 1;
        }
        None
    }

    /// Apply `event` to the record of wait object `wait` (non-null), taking
    /// the first free record for an object seen the first time; dropped when
    /// no record is free.
    pub fn record(&mut self, wait: usize, event: WaitEvent)
        requires
            wait != 0,
        ensures
            record_index(old(self)@, wait) is None ==> final(self)@ == old(self)@,
            record_index(old(self)@, wait) matches Some(i) ==> {
                let before = if old(self)@[i].wait == 0 { fresh_diagnostic(wait) } else { old(self)@[i] };
                final(self)@ == old(self)@.update(i, apply_event(before, event))
            },
    {
        let index = match self.find_record(wait) {
            Some(i) => i,
            None => return,
        };
        let current = self.slots[index];
        let d = if current.wait == 0 { fresh(wait) } else { current };
        let updated = match event {
            WaitEvent::Created { semaphore } => WaitDiagnostic { semaphore, ..d },
            WaitEvent::Block { predicate, parameter, task, caller } => WaitDiagnostic {
                predicate,
                parameter,
                blocks: d.blocks.saturating_add(1),
                last_wait_task: task,
                last_wait_caller: caller,
                ..d
            },
            WaitEvent::Ready { predicate, parameter } => WaitDiagnostic {
                predicate,
                parameter,
                ready_checks: d.ready_checks.saturating_add(1),
                ..d
            },
            WaitEvent::Wakeup { task, caller } => WaitDiagnostic {
                wakeups: d.wakeups.saturating_add(1),
                last_wake_task: task,
                last_wake_caller: caller,
                ..d
            },
        };
        self.slots.set(index, updated);
    }

    /// Forget wait object `wait`: its first record becomes free.
    pub fn forget(&mut self, wait: usize)
        ensures
            (forall|i: int| 0 <= i < old(self)@.len() ==> old(self)@[i].wait != wait) ==> final(self)@ == old(self)@,
            forall|i: int| {
                &&& 0 <= i < old(self)@.len()
                &&& old(self)@[i].wait == wait
                &&& forall|j: int| 0 <= j < i ==> old(self)@[j].wait != wait
            } ==> final(self)@ == old(self)@.update(i, fresh_diagnostic(0)),
    {
        let mut i: usize = 0;
        while i < self.slots.len()
            invariant
                i <= self.slots@.len(),
                self@ == old(self)@,
                forall|j: int| 0 <= j < i ==> self@[j].wait != wait,
            decreases self.slots@.len() - i,
        {
            if self.slots[i].wait == wait {
                self.slots.set(i, fresh(0));
                return;
            }
            i += 1;
        }
    }

    /// The records in use, in slot order, at most `limit` of them.
    pub fn snapshot(&self, limit: usize) -> (v: Vec<WaitDiagnostic>)
        ensures
            v@ == used_records(self@, self@.len() as int).take(
                if used_records(self@, self@.len() as int).len() < limit {
                    used_records(self@, self@.len() as int).len() as int
                } else {
                    limit as int
                },
            ),
    {
        let mut v: Vec<WaitDiagnostic> = Vec::new();
        let mut i: usize = 0;
        while i < self.slots.len() && v.len() < limit
            invariant
                i <= self.slots@.len(),
                v@.len() <= limit,
                v@.len() < limit ==> v@ == used_records(self@, i as int),
                v@.len() == limit ==> used_records(self@, i as int).len() >= limit && v@ == used_records(
                    self@,
                    i as int,
                ).take(limit as int),
            decreases self.slots@.len() - i,
        {
            if self.slots[i].wait != 0 {
                v.push(self.slots[i]);
            }
            i += 1;
            proof {
                lemma_used_records_prefix(self@, i as int - 1, i as int);
                if v@.len() == limit {
                    assert(used_records(self@, i as int).take(limit as int) =~= v@);
                }
            }
        }
        proof {
            lemma_used_records_prefix(self@, i as int, self@.len() as int);
            let all = used_records(self@, self@.len() as int);
            if v@.len() < limit {
                assert(all.take(all.len() as int) =~= all);
            } else {
                assert(all.take(limit as int) =~= used_records(self@, i as int).take(limit as int));
            }
        }
        v
    }
}

/// Records in use among the first `n`, in order.
pub open spec fn used_records(slots: Seq<WaitDiagnostic>, n: int) -> Seq<WaitDiagnostic>
    decreases n,
{
    if n <= 0 {
        Seq::empty()
    } else if slots[n - 1].wait != 0 {
        used_records(slots, n - 1).push(slots[n - 1])
    } else {
        used_records(slots, n - 1)
    }
}

proof fn lemma_used_records_prefix(slots: Seq<WaitDiagnostic>, m: int, n: int)
    requires
        0 <= m <= n,
    ensures
        used_records(slots, m).len() <= used_records(slots, n).len(),
        used_records(slots, n).take(used_records(slots, m).len() as int) == used_records(slots, m),
    decreases n - m,
{
    if m < n {
        lemma_used_records_prefix(slots, m, n - 1);
        assert(used_records(slots, n).take(used_records(slots, m).len() as int) =~= used_records(
            slots,
            n - 1,
        ).take(used_records(slots, m).len() as int));
    }
}

} // verus!
