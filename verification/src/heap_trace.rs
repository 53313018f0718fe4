//! Allocation bookkeeping around the C heap: alignment policy, the codes of
//! rejected frees, and two rings of recent allocation and free events for
//! post-fault diagnostics.
use vstd::prelude::*;
use crate::supplicant::{is_pow2, is_power_of_two};

verus! {

/// Alignment of `osal_kmalloc`.
pub const DEFAULT_ALIGNMENT: usize = 16;
/// Events each ring keeps.
pub const TRACE_CAPACITY: usize = 16;

/// Whether an allocation alignment is usable: at least a word and a power of
/// two.
pub fn alignment_valid(alignment: usize) -> (ok: bool)
    ensures
        ok == (alignment >= vstd::layout::align_of::<usize>() && is_pow2(alignment as nat)),
{
    alignment >= core::mem::align_of::<usize>() && is_power_of_two(alignment)
}

/// Alignment of an aligned C allocation with boundary `boundary`: `None`
/// below the default alignment.
pub fn aligned_request(boundary: u32) -> (r: Option<usize>)
    ensures
        boundary < DEFAULT_ALIGNMENT ==> r is None,
        boundary >= DEFAULT_ALIGNMENT ==> r == Some(boundary as usize),
{
    if (boundary as usize) < DEFAULT_ALIGNMENT {
        None
    } else {
        Some(boundary as usize)
    }
}

/// Why the heap refused a free.
#[derive(Clone, Copy, Debug, PartialEq, Eq, Structural)]
pub enum FreeError {
    Uninitialized,
    OutOfBounds,
    Misaligned,
    InvalidHeader,
}

/// Code of a refused free, 1 to 4 in declaration order.
pub fn free_error_code(error: FreeError) -> (code: u32)
    ensures
        code == match error {
            FreeError::Uninitialized => 1u32,
            FreeError::OutOfBounds => 2u32,
            FreeError::Misaligned => 3u32,
            FreeError::InvalidHeader => 4u32,
        },
{
    match error {
        FreeError::Uninitialized => 1,
        FreeError::OutOfBounds => 2,
        FreeError::Misaligned => 3,
        FreeError::InvalidHeader => 4,
    }
}

/// One free event.
#[derive(Clone, Copy, Debug, PartialEq, Eq, Structural)]
pub struct FreeTraceRecord {
    pub sequence: u32,
    pub pointer: usize,
    pub caller: usize,
}

/// One allocation event.
#[derive(Clone, Copy, Debug, PartialEq, Eq, Structural)]
pub struct AllocationTraceRecord {
    pub sequence: u32,
    pub pointer: usize,
    pub size: usize,
    pub caller: usize,
}

/// Ring slot of the event with sequence number `sequence` (numbers start at 1
/// and wrap).
pub open spec fn trace_slot(sequence: u32) -> int {
    vstd::wrapping::u32_specs::wrapping_sub(sequence, 1) as int % TRACE_CAPACITY as int
}

fn slot_of(sequence: u32) -> (i: usize)
    ensures
        i as int == trace_slot(sequence),
        i < TRACE_CAPACITY,
{
    (sequence.wrapping_sub(1) % 16) as usize
}

/// The recent free events.
pub struct FreeTrace {
    sequence: u32,
    slots: Vec<FreeTraceRecord>,
}

impl FreeTrace {
    /// The last sequence number issued.
    pub closed spec fn sequence(&self) -> u32 {
        self.sequence
    }

    /// The slots.
    pub closed spec fn slots(&self) -> Seq<FreeTraceRecord> {
        self.slots@
    }

    /// Exactly [`TRACE_CAPACITY`] slots.
    pub closed spec fn wf(&self) -> bool {
        self.slots@.len() == TRACE_CAPACITY
    }

    /// No events.
    pub fn new() -> (t: Self)
        ensures
            t.wf(),
            t.sequence() == 0,
            t.slots() == Seq::new(TRACE_CAPACITY as nat, |i: int| FreeTraceRecord { sequence: 0, pointer: 0, caller: 0 }),
    {
        let mut slots: Vec<FreeTraceRecord> = Vec::new();
        let mut i: usize = 0;
        while i < TRACE_CAPACITY
            invariant
                i <= TRACE_CAPACITY,
                slots@ == Seq::new(i as nat, |k: int| FreeTraceRecord { sequence: 0, pointer: 0, caller: 0 }),
            decreases TRACE_CAPACITY - i,
        {
            slots.push(FreeTraceRecord { sequence: 0, pointer: 0, caller: 0 });
            i += 1;
            assert(slots@ =~= Seq::new(i as nat, |k: int| FreeTraceRecord { sequence: 0, pointer: 0, caller: 0 }));
        }
        FreeTrace { sequence: 0, slots }
    }

    /// Record a free of `pointer` from `caller`: the next sequence number,
    /// stored in its ring slot.
    pub fn record(&mut self, pointer: usize, caller: usize)
        requires
            old(self).wf(),
        ensures
            final(self).wf(),
            final(self).sequence() == vstd::wrapping::u32_specs::wrapping_add(old(self).sequence(), 1),
            final(self).slots() == old(self).slots().update(
                trace_slot(final(self).sequence()),
                FreeTraceRecord { sequence: final(self).sequence(), pointer, caller },
            ),
    {
        let sequence = self.sequence.wrapping_add(1);
        self.sequence = sequence;
        let i = slot_of(sequence);
        self.slots.set(i, FreeTraceRecord { sequence, pointer, caller });
    }

    /// The first `min(limit, TRACE_CAPACITY)` slots.
    pub fn snapshot(&self, limit: usize) -> (v: Vec<FreeTraceRecord>)
        requires
            self.wf(),
        ensures
            v@ == self.slots().take(if limit < TRACE_CAPACITY { limit as int } else { TRACE_CAPACITY as int }),
    {
        let n = if limit < TRACE_CAPACITY { limit } else { TRACE_CAPACITY };
        let mut v: Vec<FreeTraceRecord> = Vec::new();
        let mut i: usize = 0;
        while i < n
            invariant
                i <= n <= TRACE_CAPACITY,
                self.wf(),
                v@ == self.slots().take(i as int),
            decreases n - i,
        {
            v.push(self.slots[i]);
            i += 1;
            assert(v@ =~= self.slots().take(i as int));
        }
        v
    }
}

/// The recent allocation events.
pub struct AllocationTrace {
    sequence: u32,
    slots: Vec<AllocationTraceRecord>,
}

impl AllocationTrace {
    /// The last sequence number issued.
    pub closed spec fn sequence(&self) -> u32 {
        self.sequence
    }

    /// The slots.
    pub closed spec fn slots(&self) -> Seq<AllocationTraceRecord> {
        self.slots@
    }

    /// Exactly [`TRACE_CAPACITY`] slots.
    pub closed spec fn wf(&self) -> bool {
        self.slots@.len() == TRACE_CAPACITY
    }

    /// No events.
    pub fn new() -> (t: Self)
        ensures
            t.wf(),
            t.sequence() == 0,
            t.slots() == Seq::new(
                TRACE_CAPACITY as nat,
                |i: int| AllocationTraceRecord { sequence: 0, pointer: 0, size: 0, caller: 0 },
            ),
    {
        let mut slots: Vec<AllocationTraceRecord> = Vec::new();
        let mut i: usize = 0;
        while i < TRACE_CAPACITY
            invariant
                i <= TRACE_CAPACITY,
                slots@ == Seq::new(i as nat, |k: int| AllocationTraceRecord { sequence: 0, pointer: 0, size: 0, caller: 0 }),
            decreases TRACE_CAPACITY - i,
        {
            slots.push(AllocationTraceRecord { sequence: 0, pointer: 0, size: 0, caller: 0 });
            i += 1;
            assert(slots@ =~= Seq::new(
                i as nat,
                |k: int| AllocationTraceRecord { sequence: 0, pointer: 0, size: 0, caller: 0 },
            ));
        }
        AllocationTrace { sequence: 0, slots }
    }

    /// Record an allocation of `size` bytes at `pointer` (0 when it failed)
    /// from `caller`.
    pub fn record(&mut self, pointer: usize, size: usize, caller: usize)
        requires
            old(self).wf(),
        ensures
            final(self).wf(),
            final(self).sequence() == vstd::wrapping::u32_specs::wrapping_add(old(self).sequence(), 1),
            final(self).slots() == old(self).slots().update(
                trace_slot(final(self).sequence()),
                AllocationTraceRecord { sequence: final(self).sequence(), pointer, size, caller },
            ),
    {
        let sequence = self.sequence.wrapping_add(1);
        self.sequence = sequence;
        let i = slot_of(sequence);
        self.slots.set(i, AllocationTraceRecord { sequence, pointer, size, caller });
    }

    /// The first `min(limit, TRACE_CAPACITY)` slots.
    pub fn snapshot(&self, limit: usize) -> (v: Vec<AllocationTraceRecord>)
        requires
            self.wf(),
        ensures
            v@ == self.slots().take(if limit < TRACE_CAPACITY { limit as int } else { TRACE_CAPACITY as int }),
    {
        let n = if limit < TRACE_CAPACITY { limit } else { TRACE_CAPACITY };
        let mut v: Vec<AllocationTraceRecord> = Vec::new();
        let mut i: usize = 0;
        while i < n
            invariant
                i <= n <= TRACE_CAPACITY,
                self.wf(),
                v@ == self.slots().take(i as int),
            decreases n - i,
        {
            v.push(self.slots[i]);
            i += 1;
            assert(v@ =~= self.slots().take(i as int));
        }
        v
    }
}

/// Consecutive events land in consecutive slots, wrapping after the last: the
/// ring keeps the most recent [`TRACE_CAPACITY`] events.
pub proof fn lemma_trace_slots_rotate(sequence: u32)
    requires
        sequence != 0,
        sequence != u32::MAX,
    ensures
        trace_slot((sequence + 1) as u32) == (trace_slot(sequence) + 1) % TRACE_CAPACITY as int,
{
}

} // verus!
