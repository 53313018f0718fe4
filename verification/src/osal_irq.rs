//! Per-line interrupt registration for the vendor radio code, the radio
//! interrupt lines, the interrupt-lock state word, the OSAL atomic counter,
//! task-priority and task-id conversions, and the integrity predicates of
//! the framework queue guard.
use vstd::prelude::*;
use crate::bytes::sat_inc;

verus! {

/// Interrupt lines with a registration slot.
pub const IRQ_COUNT: usize = 73;
/// Status: done.
pub const IRQ_OK: i32 = 0;
/// Status: refused.
pub const IRQ_NOK: i32 = 1;

/// The radio interrupt lines the vendor code enables.
#[derive(Clone, Copy, Debug, PartialEq, Eq, Structural)]
pub enum RadioInterrupt {
    CoexWl,
    CoexBt,
    CoexWifiResume,
    Wlphy,
    Wlmac,
    MacMonitor,
}

/// The radio interrupt on line `irq`: 40, 41, 42, 44, 45 and 69.
pub fn radio_interrupt(irq: u32) -> (r: Option<RadioInterrupt>)
    ensures
        irq == 40 ==> r == Some(RadioInterrupt::CoexWl),
        irq == 41 ==> r == Some(RadioInterrupt::CoexBt),
        irq == 42 ==> r == Some(RadioInterrupt::CoexWifiResume),
        irq == 44 ==> r == Some(RadioInterrupt::Wlphy),
        irq == 45 ==> r == Some(RadioInterrupt::Wlmac),
        irq == 69 ==> r == Some(RadioInterrupt::MacMonitor),
        !(irq == 40 || irq == 41 || irq == 42 || irq == 44 || irq == 45 || irq == 69) ==> r is None,
{
    if irq == 40 {
        Some(RadioInterrupt::CoexWl)
    } else if irq == 41 {
        Some(RadioInterrupt::CoexBt)
    } else if irq == 42 {
        Some(RadioInterrupt::CoexWifiResume)
    } else if irq == 44 {
        Some(RadioInterrupt::Wlphy)
    } else if irq == 45 {
        Some(RadioInterrupt::Wlmac)
    } else if irq == 69 {
        Some(RadioInterrupt::MacMonitor)
    } else {
        None
    }
}

/// A registered handler: its address (0 for none), argument and how often it
/// was dispatched.
#[derive(Clone, Copy, Debug, PartialEq, Eq, Structural)]
pub struct IrqSlot {
    pub handler: usize,
    pub arg: usize,
    pub dispatch_count: u32,
}

/// An empty slot.
pub open spec fn empty_irq() -> IrqSlot {
    IrqSlot { handler: 0, arg: 0, dispatch_count: 0 }
}

/// The registration table.
pub struct IrqTable {
    slots: Vec<IrqSlot>,
}

impl IrqTable {
    /// The slots.
    pub closed spec fn view(&self) -> Seq<IrqSlot> {
        self.slots@
    }

    /// Exactly [`IRQ_COUNT`] slots.
    pub open spec fn wf(&self) -> bool {
        self@.len() == IRQ_COUNT
    }

    /// All slots empty.
    pub fn new() -> (t: Self)
        ensures
            t@ == Seq::new(IRQ_COUNT as nat, |i: int| empty_irq()),
    {
        let mut slots: Vec<IrqSlot> = Vec::new();
        let mut i: usize = 0;
        while i < IRQ_COUNT
            invariant
                i <= IRQ_COUNT,
                slots@ == Seq::new(i as nat, |k: int| empty_irq()),
            decreases IRQ_COUNT - i,
        {
            slots.push(IrqSlot { handler: 0, arg: 0, dispatch_count: 0 });
            i += 1;
            assert(slots@ =~= Seq::new(i as nat, |k: int| empty_irq()));
        }
        IrqTable { slots }
    }

    /// Register a direct handler (non-zero) for line `irq`; a threaded
    /// handler is not supported. Resets the dispatch count.
    pub fn request(&mut self, irq: u32, handler: usize, threaded: bool, arg: usize) -> (status: i32)
        requires
            old(self).wf(),
        ensures
            final(self).wf(),
            (irq >= IRQ_COUNT || handler == 0 || threaded) ==> status == IRQ_NOK && final(self)@ == old(self)@,
            !(irq >= IRQ_COUNT || handler == 0 || threaded) ==> status == IRQ_OK && final(self)@ == old(self)@.update(
                irq as int,
                IrqSlot { handler, arg, dispatch_count: 0 },
            ),
    {
        if irq as usize >= IRQ_COUNT || handler == 0 || threaded {
            return IRQ_NOK;
        }
        self.slots.set(irq as usize, IrqSlot { handler, arg, dispatch_count: 0 });
        IRQ_OK
    }

    /// Remove line `irq`'s handler.
    pub fn free(&mut self, irq: u32) -> (status: i32)
        requires
            old(self).wf(),
        ensures
            final(self).wf(),
            irq >= IRQ_COUNT ==> status == IRQ_NOK && final(self)@ == old(self)@,
            irq < IRQ_COUNT ==> status == IRQ_OK && final(self)@ == old(self)@.update(irq as int, empty_irq()),
    {
        if irq as usize >= IRQ_COUNT {
            return IRQ_NOK;
        }
        self.slots.set(irq as usize, IrqSlot { handler: 0, arg: 0, dispatch_count: 0 });
        IRQ_OK
    }

    /// Dispatch line `irq` (a registered radio line): count it and return the
    /// slot as it was, for the caller to invoke its handler.
    pub fn dispatch(&mut self, irq: u32) -> (slot: IrqSlot)
        requires
            old(self).wf(),
            irq < IRQ_COUNT,
        ensures
            final(self).wf(),
            slot == old(self)@[irq as int],
            final(self)@ == old(self)@.update(
                irq as int,
                IrqSlot { dispatch_count: sat_inc(slot.dispatch_count), ..slot },
            ),
    {
        let slot = self.slots[irq as usize];
        self.slots.set(irq as usize, IrqSlot { dispatch_count: slot.dispatch_count.saturating_add(1), ..slot });
        slot
    }

    /// How often line `irq` reached its handler; 0 for an invalid line.
    pub fn dispatch_count(&self, irq: u32) -> (n: u32)
        requires
            self.wf(),
        ensures
            irq >= IRQ_COUNT ==> n == 0,
            irq < IRQ_COUNT ==> n == self@[irq as int].dispatch_count,
    {
        if irq as usize >= IRQ_COUNT {
            return 0;
        }
        self.slots[irq as usize].dispatch_count
    }
}

/// The saved interrupt state: the machine-interrupt-enable bit (0x8) of the
/// status register before the lock.
pub fn irq_lock_state(mstatus: u32) -> (state: u32)
    ensures
        state == mstatus & 0x8,
{
    mstatus & 0x8
}

/// Whether a restore re-enables interrupts.
pub fn irq_restore_enables(state: u32) -> (enable: bool)
    ensures
        enable == (state & 0x8 != 0),
{
    state & 0x8 != 0
}

/// One step of a wrapping counter: up or down by one, `i32::MAX` and
/// `i32::MIN` meeting each other.
pub open spec fn counter_step(c: i32, up: bool) -> i32 {
    if up {
        if c == i32::MAX { i32::MIN } else { (c + 1) as i32 }
    } else {
        if c == i32::MIN { i32::MAX } else { (c - 1) as i32 }
    }
}

/// The counter of an OSAL atomic. The caller serialises the operations
/// (interrupts masked on the single hart); each one wraps on overflow.
#[derive(Clone, Copy, Debug, PartialEq, Eq, Structural)]
pub struct OsalAtomic {
    pub counter: i32,
}

impl OsalAtomic {
    /// The counter.
    pub fn read(&self) -> (v: i32)
        ensures
            v == self.counter,
    {
        self.counter
    }

    /// Set the counter.
    pub fn set(&mut self, i: i32)
        ensures
            final(self).counter == i,
    {
        self.counter = i;
    }

    /// Add one, wrapping, and return the new value.
    pub fn inc_return(&mut self) -> (v: i32)
        ensures
            v == counter_step(old(self).counter, true),
            final(self).counter == v,
    {
        self.counter = self.counter.wrapping_add(1);
        self.counter
    }

    /// Subtract one, wrapping, and return the new value.
    pub fn dec_return(&mut self) -> (v: i32)
        ensures
            v == counter_step(old(self).counter, false),
            final(self).counter == v,
    {
        self.counter = self.counter.wrapping_sub(1);
        self.counter
    }
}

/// An increment undone by a decrement leaves the counter as it was, at
/// every value, the wrapping ones included.
pub proof fn lemma_counter_inc_dec(c: i32)
    ensures
        counter_step(counter_step(c, true), false) == c,
        counter_step(counter_step(c, false), true) == c,
{
}

/// Whether a LiteOS task priority is valid (0 highest to 31 lowest).
pub fn task_priority_valid(priority: i32) -> (ok: bool)
    ensures
        ok == (0 <= priority <= 31),
{
    0 <= priority && priority <= 31
}

/// The OSAL task id of a scheduler slot: the slot, or -1 past `i32::MAX`.
pub fn task_id(slot: usize) -> (id: i32)
    ensures
        slot <= i32::MAX ==> id == slot,
        slot > i32::MAX ==> id == -1,
{
    if slot <= i32::MAX as usize {
        slot as i32
    } else {
        -1
    }
}

/// Stack size for a kernel thread: at least one byte.
pub fn kthread_stack_size(requested: usize) -> (size: usize)
    ensures
        size == (if requested < 1 { 1 } else { requested }),
        size >= 1,
{
    if requested < 1 {
        1
    } else {
        requested
    }
}

/// Whether a link of the framework's device queue points at the queue head
/// (0x0018_0fa4) or at an 8-byte-aligned node in node memory
/// (0x00a0_c000..0x00a8_0000).
pub open spec fn spec_frw_queue_link_valid(link: u32) -> bool {
    link == 0x0018_0fa4 || (0x00a0_c000 <= link < 0x00a8_0000 && link % 8 == 0)
}

/// [`spec_frw_queue_link_valid`].
pub fn frw_queue_link_valid(link: u32) -> (ok: bool)
    ensures
        ok == spec_frw_queue_link_valid(link),
{
    link == 0x0018_0fa4 || (0x00a0_c000 <= link && link < 0x00a8_0000 && link % 8 == 0)
}

/// Whether a host-queue link word is sane: it points at its own queue, or at
/// a word-aligned node in host node memory (0x00a1_8700..0x00a8_df00).
pub open spec fn host_link_ok(queue: u32, value: u32) -> bool {
    value == queue || (0x00a1_8700 <= value < 0x00a8_df00 && value % 4 == 0)
}

/// Whether a host-queue callback is sane: none, or code in 0x0023_0000..0x0030_0000.
pub open spec fn host_callback_ok(callback: u32) -> bool {
    callback == 0 || (0x0023_0000 <= callback < 0x0030_0000)
}

/// The words of one host queue: its two links and its callback.
#[derive(Clone, Copy, Debug, PartialEq, Eq, Structural)]
pub struct HostQueueWords {
    pub next: u32,
    pub prev: u32,
    pub callback: u32,
}

/// Address of host queue `index` in a table at `base`.
pub open spec fn host_queue_address(base: int, index: int) -> int {
    base + 8 + index * 24
}

/// The first inconsistent host queue among `queues` (table at `base`): its
/// index, the field (0 next, 1 prev, 2 callback) and the bad value.
pub open spec fn spec_first_bad_host_queue(base: u32, queues: Seq<HostQueueWords>, n: int) -> Option<(usize, usize, u32)>
    decreases n,
{
    if n <= 0 {
        None
    } else {
        match spec_first_bad_host_queue(base, queues, n - 1) {
            Some(r) => Some(r),
            None => {
                let q = queues[n - 1];
                let addr = host_queue_address(base as int, n - 1) as u32;
                if !host_link_ok(addr, q.next) {
                    Some(((n - 1) as usize, 0usize, q.next))
                } else if !host_link_ok(addr, q.prev) {
                    Some(((n - 1) as usize, 1usize, q.prev))
                } else if !host_callback_ok(q.callback) {
                    Some(((n - 1) as usize, 2usize, q.callback))
                } else {
                    None
                }
            },
        }
    }
}

/// Check the five host queues of the table at `base`.
pub fn first_bad_host_queue(base: u32, queues: &[HostQueueWords]) -> (r: Option<(usize, usize, u32)>)
    requires
        queues@.len() <= 5,
        base + 8 + 5 * 24 <= u32::MAX,
    ensures
        r == spec_first_bad_host_queue(base, queues@, queues@.len() as int),
{
    let mut i: usize = 0;
    while i < queues.len()
        invariant
            i <= queues@.len() <= 5,
            base + 8 + 5 * 24 <= u32::MAX,
            spec_first_bad_host_queue(base, queues@, i as int) is None,
        decreases queues@.len() - i,
    {
        let q = queues[i];
        let addr: u32 = base + 8 + (i as u32) * 24;
        assert(addr == host_queue_address(base as int, i as int) as u32);
        if !(q.next == addr || (0x00a1_8700 <= q.next && q.next < 0x00a8_df00 && q.next % 4 == 0)) {
            proof {
                lemma_first_bad_sticks(base, queues@, i as int + 1, queues@.len() as int);
            }
            return Some((i, 0, q.next));
        }
        if !(q.prev == addr || (0x00a1_8700 <= q.prev && q.prev < 0x00a8_df00 && q.prev % 4 == 0)) {
            proof {
                lemma_first_bad_sticks(base, queues@, i as int + 1, queues@.len() as int);
            }
            return Some((i, 1, q.prev));
        }
        if !(q.callback == 0 || (0x0023_0000 <= q.callback && q.callback < 0x0030_0000)) {
            proof {
                lemma_first_bad_sticks(base, queues@, i as int + 1, queues@.len() as int);
            }
            return Some((i, 2, q.callback));
        }
        i += 1;
    }
    None
}

proof fn lemma_first_bad_sticks(base: u32, queues: Seq<HostQueueWords>, m: int, n: int)
    requires
        0 <= m <= n,
        spec_first_bad_host_queue(base, queues, m) is Some,
    ensures
        spec_first_bad_host_queue(base, queues, n) == spec_first_bad_host_queue(base, queues, m),
    decreases n - m,
{
    if m < n {
        lemma_first_bad_sticks(base, queues, m, n - 1);
    }
}

} // verus!
