//! Cooperative millisecond software timers.
//!
//! There is no tick interrupt: the worker loop asks [`TimerTable::timeout_proc`]
//! which timers are due (and fires their handlers itself), and parks until
//! [`TimerTable::next_delay_ms`]. A registered timer is known to its owner by
//! a handle, its slot index plus one.
use vstd::prelude::*;

verus! {

/// Number of timer slots.
pub const MAX_TIMERS: usize = 32;
/// OSAL success status.
pub const OSAL_OK: i32 = 0;
/// OSAL failure status.
pub const OSAL_NOK: i32 = 1;

/// One timer slot.
#[derive(Clone, Copy, Debug, PartialEq, Eq)]
pub struct TimerSlot {
    pub used: bool,
    pub active: bool,
    pub periodic: bool,
    /// Address of the caller-owned `osal_timer` (handler and data live there).
    pub timer: usize,
    /// Deadline in milliseconds.
    pub deadline: u64,
    /// Interval in milliseconds.
    pub interval: u64,
}

/// The unused slot.
pub open spec fn empty_slot() -> TimerSlot {
    TimerSlot { used: false, active: false, periodic: false, timer: 0, deadline: 0, interval: 0 }
}

/// Whether a slot fires at time `now`.
pub open spec fn is_due(slot: TimerSlot, now: u64) -> bool {
    slot.used && slot.active && now >= slot.deadline
}

/// Timer addresses of the slots among the first `n` that are due, in slot order.
pub open spec fn due_timers(slots: Seq<TimerSlot>, now: u64, n: int) -> Seq<usize>
    decreases n,
{
    if n <= 0 {
        Seq::empty()
    } else if is_due(slots[n - 1], now) {
        due_timers(slots, now, n - 1).push(slots[n - 1].timer)
    } else {
        due_timers(slots, now, n - 1)
    }
}

/// A slot after a timeout pass at `now`: due periodic timers re-arm one
/// interval later, due one-shot timers become inactive.
pub open spec fn after_timeout(slot: TimerSlot, now: u64) -> TimerSlot {
    if is_due(slot, now) {
        if slot.periodic {
            TimerSlot { deadline: (now + slot.interval) as u64, ..slot }
        } else {
            TimerSlot { active: false, ..slot }
        }
    } else {
        slot
    }
}

/// A one-shot timer that fires is disarmed: it is not due again at any later
/// time until it is modified. A periodic one is rearmed one interval on.
pub proof fn lemma_one_shot_fires_once(slot: TimerSlot, now: u64, later: u64)
    requires
        is_due(slot, now),
        now + slot.interval <= u64::MAX,
    ensures
        !slot.periodic ==> !is_due(after_timeout(slot, now), later),
        slot.periodic ==> after_timeout(slot, now).deadline == now + slot.interval
            && after_timeout(slot, now).active,
{
}

/// Milliseconds until the slot's deadline, zero when already passed.
pub open spec fn remaining(slot: TimerSlot, now: u64) -> u64 {
    if slot.deadline >= now {
        (slot.deadline - now) as u64
    } else {
        0
    }
}

/// The slot index behind a handle: handles are `1..=MAX_TIMERS`.
pub open spec fn spec_slot_of(handle: usize) -> Option<usize> {
    if handle == 0 || handle > MAX_TIMERS {
        None
    } else {
        Some((handle - 1) as usize)
    }
}

/// Slot index of a timer handle.
pub fn slot_of(handle: usize) -> (r: Option<usize>)
    ensures
        r == spec_slot_of(handle),
{
    if handle == 0 || handle > MAX_TIMERS {
        None
    } else {
        Some(handle - 1)
    }
}

/// Whether an `osal_timer` may be registered: it has a handler, is not
/// registered yet (null handle) and has a non-zero interval.
pub fn timer_request_is_valid(has_handler: bool, handle: usize, interval: u32) -> (ok: bool)
    ensures
        ok == (has_handler && handle == 0 && interval != 0),
{
    has_handler && handle == 0 && interval != 0
}

/// The timer slots.
pub struct TimerTable {
    slots: Vec<TimerSlot>,
}

impl TimerTable {
    /// The slots.
    pub closed spec fn view(&self) -> Seq<TimerSlot> {
        self.slots@
    }

    /// Exactly [`MAX_TIMERS`] slots, each interval a 32-bit millisecond count.
    pub closed spec fn wf(&self) -> bool {
        &&& self.slots@.len() == MAX_TIMERS
        &&& forall|i: int| 0 <= i < MAX_TIMERS ==> (#[trigger] self.slots@[i]).interval <= u32::MAX
    }

    /// All slots unused.
    pub fn new() -> (t: Self)
        ensures
            t.wf(),
            t@ == Seq::new(MAX_TIMERS as nat, |i: int| empty_slot()),
    {
        let mut slots: Vec<TimerSlot> = Vec::new();
        let mut i: usize = 0;
        while i < MAX_TIMERS
            invariant
                i <= MAX_TIMERS,
                slots@ == Seq::new(i as nat, |k: int| empty_slot()),
            decreases MAX_TIMERS - i,
        {
            slots.push(TimerSlot { used: false, active: false, periodic: false, timer: 0, deadline: 0, interval: 0 });
            i += 1;
            assert(slots@ =~= Seq::new(i as nat, |k: int| empty_slot()));
        }
        TimerTable { slots }
    }

    /// Clear every slot (service init and exit).
    pub fn clear(&mut self)
        requires
            old(self).wf(),
        ensures
            final(self).wf(),
            final(self)@ == Seq::new(MAX_TIMERS as nat, |i: int| empty_slot()),
    {
        let mut i: usize = 0;
        while i < MAX_TIMERS
            invariant
                i <= MAX_TIMERS,
                self.slots@.len() == MAX_TIMERS,
                forall|k: int| 0 <= k < MAX_TIMERS ==> (#[trigger] self.slots@[k]).interval <= u32::MAX,
                forall|k: int| 0 <= k < i ==> self.slots@[k] == empty_slot(),
            decreases MAX_TIMERS - i,
        {
            self.slots.set(i, TimerSlot { used: false, active: false, periodic: false, timer: 0, deadline: 0, interval: 0 });
            i += 1;
        }
        assert(self.slots@ =~= Seq::new(MAX_TIMERS as nat, |i: int| empty_slot()));
    }

    /// Reserve the first unused slot, reset to an inactive used slot.
    pub fn alloc_slot(&mut self) -> (r: Option<usize>)
        requires
            old(self).wf(),
        ensures
            final(self).wf(),
            r is None <==> forall|i: int| 0 <= i < MAX_TIMERS ==> old(self)@[i].used,
            r is None ==> final(self)@ == old(self)@,
            r matches Some(k) ==> k < MAX_TIMERS && !old(self)@[k as int].used
                && (forall|j: int| 0 <= j < k ==> old(self)@[j].used)
                && final(self)@ == old(self)@.update(k as int, TimerSlot { used: true, ..empty_slot() }),
    {
        let mut i: usize = 0;
        while i < MAX_TIMERS
            invariant
                self.wf(),
                self@ == old(self)@,
                i <= MAX_TIMERS,
                forall|j: int| 0 <= j < i ==> self.slots@[j].used,
            decreases MAX_TIMERS - i,
        {
            if !self.slots[i].used {
                self.slots.set(i, TimerSlot { used: true, active: false, periodic: false, timer: 0, deadline: 0, interval: 0 });
                return Some(i);
            }
            i += 1;
        }
        None
    }

    /// Register a validated timer: reserve a slot, remember the timer's
    /// address and interval, and return its handle (slot + 1); `None` when
    /// every slot is taken.
    pub fn register(&mut self, timer: usize, interval: u32) -> (r: Option<usize>)
        requires
            old(self).wf(),
        ensures
            final(self).wf(),
            r is None <==> forall|i: int| 0 <= i < MAX_TIMERS ==> old(self)@[i].used,
            r is None ==> final(self)@ == old(self)@,
            r matches Some(handle) ==> 1 <= handle <= MAX_TIMERS && !old(self)@[handle - 1].used
                && (forall|j: int| 0 <= j < handle - 1 ==> old(self)@[j].used)
                && final(self)@ == old(self)@.update(
                    handle - 1,
                    TimerSlot { used: true, timer, interval: interval as u64, ..empty_slot() },
                ),
    {
        match self.alloc_slot() {
            None => None,
            Some(slot) => {
                self.slots.set(slot, TimerSlot {
                    used: true,
                    active: false,
                    periodic: false,
                    timer,
                    deadline: 0,
                    interval: interval as u64,
                });
                Some(slot + 1)
            },
        }
    }

    /// (Re)arm a timer to fire once `interval` ms after `now`. Fails for a
    /// zero interval, an invalid handle or an unused slot.
    pub fn modify(&mut self, handle: usize, interval: u32, now: u64) -> (status: i32)
        requires
            old(self).wf(),
            now <= u64::MAX - u32::MAX,
        ensures
            final(self).wf(),
            (interval == 0 || spec_slot_of(handle) is None) ==> status == OSAL_NOK && final(self)@ == old(self)@,
            interval != 0 ==> (spec_slot_of(handle) matches Some(k) ==> {
                &&& !old(self)@[k as int].used ==> status == OSAL_NOK && final(self)@ == old(self)@
                &&& old(self)@[k as int].used ==> status == OSAL_OK && final(self)@ == old(self)@.update(
                    k as int,
                    TimerSlot {
                        interval: interval as u64,
                        deadline: (now + interval) as u64,
                        active: true,
                        periodic: false,
                        ..old(self)@[k as int]
                    },
                )
            }),
    {
        if interval == 0 {
            return OSAL_NOK;
        }
        let slot = match slot_of(handle) {
            Some(i) => i,
            None => return OSAL_NOK,
        };
        let current = self.slots[slot];
        if !current.used {
            return OSAL_NOK;
        }
        self.slots.set(slot, TimerSlot {
            interval: interval as u64,
            deadline: now + interval as u64,
            active: true,
            periodic: false,
            ..current
        });
        OSAL_OK
    }

    /// Stop a timer: 1 when it was active, 0 when it was not, `OSAL_NOK` for
    /// an invalid handle.
    pub fn stop(&mut self, handle: usize) -> (status: i32)
        requires
            old(self).wf(),
        ensures
            final(self).wf(),
            spec_slot_of(handle) is None ==> status == OSAL_NOK && final(self)@ == old(self)@,
            spec_slot_of(handle) matches Some(k) ==> (status == (if old(self)@[k as int].active { 1i32 } else { 0i32 })
                && final(self)@ == old(self)@.update(k as int, TimerSlot { active: false, ..old(self)@[k as int] })),
    {
        let slot = match slot_of(handle) {
            Some(i) => i,
            None => return OSAL_NOK,
        };
        let current = self.slots[slot];
        self.slots.set(slot, TimerSlot { active: false, ..current });
        if current.active {
            1
        } else {
            0
        }
    }

    /// Free a timer's slot; an invalid handle is a no-op. Always `OSAL_OK`.
    pub fn destroy(&mut self, handle: usize) -> (status: i32)
        requires
            old(self).wf(),
        ensures
            final(self).wf(),
            status == OSAL_OK,
            spec_slot_of(handle) is None ==> final(self)@ == old(self)@,
            spec_slot_of(handle) matches Some(k) ==> final(self)@ == old(self)@.update(k as int, empty_slot()),
    {
        match slot_of(handle) {
            Some(slot) => {
                self.slots.set(slot, TimerSlot { used: false, active: false, periodic: false, timer: 0, deadline: 0, interval: 0 });
            },
            None => {},
        }
        OSAL_OK
    }

    /// Collect the timers due at `now` (in slot order) for the caller to fire;
    /// one-shot timers deactivate, periodic ones re-arm.
    pub fn timeout_proc(&mut self, now: u64) -> (due: Vec<usize>)
        requires
            old(self).wf(),
            now <= u64::MAX - u32::MAX,
        ensures
            final(self).wf(),
            due@ == due_timers(old(self)@, now, MAX_TIMERS as int),
            final(self)@ == Seq::new(MAX_TIMERS as nat, |i: int| after_timeout(old(self)@[i], now)),
    {
        let mut due: Vec<usize> = Vec::new();
        let mut i: usize = 0;
        while i < MAX_TIMERS
            invariant
                i <= MAX_TIMERS,
                self.slots@.len() == MAX_TIMERS,
                old(self).wf(),
                now <= u64::MAX - u32::MAX,
                forall|k: int| 0 <= k < MAX_TIMERS ==> (#[trigger] self.slots@[k]).interval <= u32::MAX,
                due@ == due_timers(old(self)@, now, i as int),
                forall|k: int| 0 <= k < i ==> self.slots@[k] == after_timeout(old(self)@[k], now),
                forall|k: int| i <= k < MAX_TIMERS ==> self.slots@[k] == old(self)@[k],
            decreases MAX_TIMERS - i,
        {
            let slot = self.slots[i];
            if slot.used && slot.active && now >= slot.deadline {
                due.push(slot.timer);
                if slot.periodic {
                    self.slots.set(i, TimerSlot { deadline: now + slot.interval, ..slot });
                } else {
                    self.slots.set(i, TimerSlot { active: false, ..slot });
                }
            }
            i += 1;
        }
        assert(self.slots@ =~= Seq::new(MAX_TIMERS as nat, |i: int| after_timeout(old(self)@[i], now)));
        due
    }

    /// Milliseconds until the nearest active timer's deadline, clamped to at
    /// least 1 and at most `u32::MAX`; `u32::MAX` when no timer is armed.
    pub fn next_delay_ms(&self, now: u64) -> (delay: u32)
        requires
            self.wf(),
        ensures
            (forall|i: int| 0 <= i < MAX_TIMERS ==> !(self@[i].used && self@[i].active)) ==> delay == u32::MAX,
            (exists|i: int| 0 <= i < MAX_TIMERS && self@[i].used && self@[i].active) ==> exists|i: int| {
                &&& 0 <= i < MAX_TIMERS
                &&& self@[i].used && self@[i].active
                &&& (forall|j: int| 0 <= j < MAX_TIMERS && self@[j].used && self@[j].active
                    ==> remaining(self@[i], now) <= remaining(self@[j], now))
                &&& delay == (if remaining(self@[i], now) < 1 { 1 } else if remaining(self@[i], now) > u32::MAX {
                    u32::MAX as u64
                } else {
                    remaining(self@[i], now)
                })
            },
    {
        let mut best: Option<u64> = None;
        let ghost mut best_index: int = 0;
        let mut i: usize = 0;
        while i < MAX_TIMERS
            invariant
                i <= MAX_TIMERS,
                self.wf(),
                best is None ==> forall|k: int| 0 <= k < i ==> !(self@[k].used && self@[k].active),
                best matches Some(b) ==> {
                    &&& 0 <= best_index < i
                    &&& self@[best_index].used && self@[best_index].active
                    &&& b == remaining(self@[best_index], now)
                    &&& forall|k: int| 0 <= k < i && self@[k].used && self@[k].active ==> b <= remaining(self@[k], now)
                },
            decreases MAX_TIMERS - i,
        {
            let slot = self.slots[i];
            if slot.used && slot.active {
                let d = slot.deadline.saturating_sub(now);
                let replace = match best {
                    None => true,
                    Some(b) => d < b,
                };
                if replace {
                    best = Some(d);
                    proof {
                        best_index = i as int;
                    }
                }
            }
            i += 1;
        }
        match best {
            None => u32::MAX,
            Some(d) => {
                if d < 1 {
                    1
                } else if d > u32::MAX as u64 {
                    u32::MAX
                } else {
                    d as u32
                }
            },
        }
    }
}

} // verus!
