//! OSAL message queues (a bounded ring of fixed-size items) and event groups
//! (a bit mask with registered readers).
//!
//! Blocking is the caller's: a queue's reader waits on a counting semaphore
//! that each successful write raises; an event reader parks on its own
//! semaphore, which a matching write raises.
use vstd::prelude::*;
use crate::bytes::sat_inc;

verus! {

/// Ring position `k` items after `head` in a ring of `cap` slots.
pub open spec fn ring_index(head: int, k: int, cap: int) -> int {
    if head + k < cap {
        head + k
    } else {
        head + k - cap
    }
}

/// The bytes a write leaves in a slot: the first `min(len, item_size)` bytes
/// of the buffer, then what the slot held before.
pub open spec fn write_image(slot: Seq<u8>, buffer: Seq<u8>, item_size: int) -> Seq<u8> {
    let n = if buffer.len() < item_size { buffer.len() as int } else { item_size };
    buffer.take(n) + slot.skip(n)
}

/// Number of bytes a read copies: the caller's size, clamped to the item size;
/// the whole item when the caller gives none.
pub open spec fn read_len(want: Option<u32>, item_size: int) -> int {
    match want {
        Some(w) => if w < item_size { w as int } else { item_size },
        None => item_size,
    }
}

/// A bounded FIFO of fixed-size message items.
pub struct MsgRing {
    slots: Vec<Vec<u8>>,
    item_size: usize,
    head: usize,
    count: usize,
}

impl MsgRing {
    /// Number of slots.
    pub closed spec fn capacity(&self) -> int {
        self.slots@.len() as int
    }

    /// Size of one item.
    pub closed spec fn item_size(&self) -> int {
        self.item_size as int
    }

    /// Queued items, oldest first (each the full slot).
    pub closed spec fn contents(&self) -> Seq<Seq<u8>> {
        Seq::new(
            self.count as nat,
            |k: int| self.slots@[ring_index(self.head as int, k, self.slots@.len() as int)]@,
        )
    }

    /// The slot the next write fills.
    pub closed spec fn next_slot(&self) -> Seq<u8> {
        self.slots@[ring_index(self.head as int, self.count as int, self.slots@.len() as int)]@
    }

    /// Ring shape: slots of one item size, a head inside the ring, at most
    /// `capacity` items.
    pub closed spec fn wf(&self) -> bool {
        &&& 0 < self.slots@.len() <= u16::MAX
        &&& 0 < self.item_size <= u16::MAX
        &&& self.head < self.slots@.len()
        &&& self.count <= self.slots@.len()
        &&& forall|i: int| 0 <= i < self.slots@.len() ==> (#[trigger] self.slots@[i])@.len() == self.item_size
    }

    /// A queue of `queue_len` items of `max_msgsize` bytes; `None` when either
    /// is zero.
    pub fn create(queue_len: u16, max_msgsize: u16) -> (r: Option<MsgRing>)
        ensures
            r is None <==> (queue_len == 0 || max_msgsize == 0),
            r matches Some(q) ==> q.wf() && q.capacity() == queue_len && q.item_size() == max_msgsize
                && q.contents().len() == 0,
    {
        if queue_len == 0 || max_msgsize == 0 {
            return None;
        }
        let cap = queue_len as usize;
        let size = max_msgsize as usize;
        let mut slots: Vec<Vec<u8>> = Vec::new();
        let mut i: usize = 0;
        while i < cap
            invariant
                i <= cap,
                cap == queue_len,
                size == max_msgsize,
                slots@.len() == i,
                forall|j: int| 0 <= j < i ==> (#[trigger] slots@[j])@.len() == size,
            decreases cap - i,
        {
            let mut slot: Vec<u8> = Vec::new();
            let mut j: usize = 0;
            while j < size
                invariant
                    j <= size,
                    slot@.len() == j,
                decreases size - j,
            {
                slot.push(0u8);
                j += 1;
            }
            slots.push(slot);
            i += 1;
        }
        let q = MsgRing { slots, item_size: size, head: 0, count: 0 };
        assert(q.contents() =~= Seq::<Seq<u8>>::empty());
        Some(q)
    }

    /// Whether every slot holds an item.
    pub fn is_full(&self) -> (full: bool)
        requires
            self.wf(),
        ensures
            full == (self.contents().len() >= self.capacity()),
    {
        self.count >= self.slots.len()
    }

    /// Number of queued items.
    pub fn len(&self) -> (n: usize)
        requires
            self.wf(),
        ensures
            n == self.contents().len(),
    {
        self.count
    }

    /// Append a copy of `buffer`, clamped to the item size; `false` (and no
    /// change) when the queue is full.
    pub fn write_copy(&mut self, buffer: &[u8]) -> (ok: bool)
        requires
            old(self).wf(),
        ensures
            final(self).wf(),
            final(self).capacity() == old(self).capacity(),
            final(self).item_size() == old(self).item_size(),
            ok == (old(self).contents().len() < old(self).capacity()),
            ok ==> final(self).contents() == old(self).contents().push(
                write_image(old(self).next_slot(), buffer@, old(self).item_size()),
            ),
            !ok ==> final(self).contents() == old(self).contents(),
    {
        let cap = self.slots.len();
        if self.count >= cap {
            return false;
        }
        let n: usize = if buffer.len() < self.item_size { buffer.len() } else { self.item_size };
        let mut slot = self.head + self.count;
        if slot >= cap {
            slot = slot - cap;
        }
        let ghost old_contents = self.contents();
        let ghost old_slot = self.slots@[slot as int]@;
        let mut bytes: Vec<u8> = self.slots[slot].clone();
        let mut i: usize = 0;
        while i < n
            invariant
                i <= n,
                n <= buffer@.len(),
                n <= old_slot.len(),
                bytes@.len() == old_slot.len(),
                forall|j: int| 0 <= j < i ==> bytes@[j] == buffer@[j],
                forall|j: int| i <= j < old_slot.len() ==> bytes@[j] == old_slot[j],
            decreases n - i,
        {
            bytes.set(i, buffer[i]);
            i += 1;
        }
        assert(bytes@ =~= write_image(old_slot, buffer@, self.item_size as int));
        self.slots.set(slot, bytes);
        self.count = self.count + 1;
        proof {
            let c = self.contents();
            assert forall|k: int| 0 <= k < old_contents.len() implies c[k] == old_contents[k] by {
                assert(ring_index(self.head as int, k, cap as int) != slot);
            }
            assert(c =~= old_contents.push(write_image(old_slot, buffer@, self.item_size as int)));
        }
        true
    }

    /// Remove the oldest item and return its first [`read_len`] bytes; `None`
    /// (and no change) when the queue is empty.
    pub fn read_copy(&mut self, want: Option<u32>) -> (r: Option<Vec<u8>>)
        requires
            old(self).wf(),
        ensures
            final(self).wf(),
            final(self).capacity() == old(self).capacity(),
            final(self).item_size() == old(self).item_size(),
            r is None <==> old(self).contents().len() == 0,
            r is None ==> final(self).contents() == old(self).contents(),
            r matches Some(out) ==> out@ == old(self).contents()[0].take(read_len(want, old(self).item_size()))
                && final(self).contents() == old(self).contents().drop_first(),
    {
        if self.count == 0 {
            return None;
        }
        let ghost old_contents = self.contents();
        let n: usize = match want {
            Some(w) => if (w as usize) < self.item_size { w as usize } else { self.item_size },
            None => self.item_size,
        };
        let head = self.head;
        let mut out: Vec<u8> = Vec::new();
        let mut i: usize = 0;
        while i < n
            invariant
                i <= n,
                n <= self.item_size,
                head == self.head,
                self.wf(),
                out@ == self.slots@[head as int]@.take(i as int),
            decreases n - i,
        {
            out.push(self.slots[head][i]);
            i += 1;
            assert(out@ =~= self.slots@[head as int]@.take(i as int));
        }
        let cap = self.slots.len();
        self.head = if head + 1 < cap { head + 1 } else { 0 };
        self.count = self.count - 1;
        proof {
            let c = self.contents();
            assert forall|k: int| 0 <= k < c.len() implies c[k] == old_contents[k + 1] by {
                assert(ring_index(self.head as int, k, cap as int) == ring_index(head as int, k + 1, cap as int));
            }
            assert(c =~= old_contents.drop_first());
            assert(old_contents[0] == self.slots@[head as int]@);
        }
        Some(out)
    }
}

/// A write into an empty queue is what the next read returns, up to the item
/// size and the reader's size.
pub proof fn lemma_read_returns_write(slot: Seq<u8>, buffer: Seq<u8>, item_size: int, want: Option<u32>)
    requires
        slot.len() == item_size,
        0 < item_size,
    ensures
        ({
            let r = read_len(want, item_size);
            let n = if buffer.len() < item_size { buffer.len() as int } else { item_size };
            r <= n ==> write_image(slot, buffer, item_size).take(r) == buffer.take(r)
        }),
{
    let r = read_len(want, item_size);
    let n = if buffer.len() < item_size { buffer.len() as int } else { item_size };
    if r <= n {
        assert(write_image(slot, buffer, item_size).take(r) =~= buffer.take(r));
    }
}

/// Wait mode bit: all mask bits must be set (otherwise any one suffices).
pub const WAITMODE_AND: u32 = 4;
/// Wait mode bit: clear the matched bits on success.
pub const WAITMODE_CLR: u32 = 1;
/// Readers that can wait on one event group at a time.
pub const MAX_EVENT_WAITERS: usize = 8;
/// Event groups tracked for diagnostics.
pub const MAX_EVENT_GROUPS: usize = 16;

/// The bits a reader waiting for `mask` in `mode` gets from `bits`, if its
/// condition holds: all of a non-empty mask in AND mode, any of it otherwise.
pub open spec fn spec_event_matches(bits: u32, mask: u32, mode: u32) -> Option<u32> {
    let matched = bits & mask;
    let satisfied = if mode & WAITMODE_AND != 0 {
        matched == mask && mask != 0
    } else {
        matched != 0
    };
    if satisfied {
        Some(matched)
    } else {
        None
    }
}

/// Match a reader's mask and mode against the event bits.
pub fn event_matches(bits: u32, mask: u32, mode: u32) -> (r: Option<u32>)
    ensures
        r == spec_event_matches(bits, mask, mode),
{
    let matched = bits & mask;
    let satisfied = if mode & WAITMODE_AND != 0 {
        matched == mask && mask != 0
    } else {
        matched != 0
    };
    if satisfied {
        Some(matched)
    } else {
        None
    }
}

/// Bits written to an event group satisfy a reader waiting for exactly
/// those bits, in either mode, and the reader gets all of them back; with
/// the clear flag they are gone from the group afterwards.
pub proof fn lemma_read_after_write(bits: u32, mask: u32, mode: u32)
    requires
        mask != 0,
    ensures
        spec_event_matches(bits | mask, mask, mode) == Some(mask),
        mode & WAITMODE_CLR != 0 ==> bits_after_match(bits | mask, mask, mode) == bits & !mask,
{
    assert((bits | mask) & mask == mask) by (bit_vector);
    assert(((bits | mask) & !mask) == bits & !mask) by (bit_vector);
}

/// A registered reader: its private semaphore (0 when the entry is free),
/// mask and mode.
#[derive(Clone, Copy, Debug, PartialEq, Eq, Structural)]
pub struct EventWaiter {
    pub semaphore: usize,
    pub mask: u32,
    pub mode: u32,
}

/// A free waiter entry.
pub open spec fn empty_waiter() -> EventWaiter {
    EventWaiter { semaphore: 0, mask: 0, mode: 0 }
}

/// Read-only event-group state for diagnostics.
#[derive(Clone, Copy, Debug, PartialEq, Eq, Structural)]
pub struct EventDiagnostic {
    pub event: usize,
    pub bits: u32,
    pub reads: u32,
    pub writes: u32,
    pub matches: u32,
    pub last_read_mask: u32,
    pub last_write_mask: u32,
    pub last_mode: u32,
}

/// An event group: the bits, the registered readers and counters.
pub struct EventGroup {
    bits: u32,
    waiters: Vec<EventWaiter>,
    reads: u32,
    writes: u32,
    matches: u32,
    last_read_mask: u32,
    last_write_mask: u32,
    last_mode: u32,
}

/// Abstract event-group state.
pub struct EventGroupView {
    pub bits: u32,
    pub waiters: Seq<EventWaiter>,
    pub reads: u32,
    pub writes: u32,
    pub matches: u32,
    pub last_read_mask: u32,
    pub last_write_mask: u32,
    pub last_mode: u32,
}

/// Bits left after a successful match: cleared in CLR mode.
pub open spec fn bits_after_match(bits: u32, matched: u32, mode: u32) -> u32 {
    if mode & WAITMODE_CLR != 0 {
        bits & !matched
    } else {
        bits
    }
}

impl EventGroup {
    /// Abstract state.
    pub closed spec fn view(&self) -> EventGroupView {
        EventGroupView {
            bits: self.bits,
            waiters: self.waiters@,
            reads: self.reads,
            writes: self.writes,
            matches: self.matches,
            last_read_mask: self.last_read_mask,
            last_write_mask: self.last_write_mask,
            last_mode: self.last_mode,
        }
    }

    /// Exactly [`MAX_EVENT_WAITERS`] waiter entries.
    pub open spec fn wf(&self) -> bool {
        self@.waiters.len() == MAX_EVENT_WAITERS
    }

    /// A group with no bits, no readers and zeroed counters.
    pub fn new() -> (g: Self)
        ensures
            g.wf(),
            g@.bits == 0 && g@.reads == 0 && g@.writes == 0 && g@.matches == 0,
            g@.last_read_mask == 0 && g@.last_write_mask == 0 && g@.last_mode == 0,
            g@.waiters == Seq::new(MAX_EVENT_WAITERS as nat, |i: int| empty_waiter()),
    {
        let mut waiters: Vec<EventWaiter> = Vec::new();
        let mut i: usize = 0;
        while i < MAX_EVENT_WAITERS
            invariant
                i <= MAX_EVENT_WAITERS,
                waiters@ == Seq::new(i as nat, |k: int| empty_waiter()),
            decreases MAX_EVENT_WAITERS - i,
        {
            waiters.push(EventWaiter { semaphore: 0, mask: 0, mode: 0 });
            i += 1;
            assert(waiters@ =~= Seq::new(i as nat, |k: int| empty_waiter()));
        }
        EventGroup {
            bits: 0,
            waiters,
            reads: 0,
            writes: 0,
            matches: 0,
            last_read_mask: 0,
            last_write_mask: 0,
            last_mode: 0,
        }
    }

    /// Snapshot for diagnostics, under the group's handle `event`.
    pub fn diagnostic(&self, event: usize) -> (d: EventDiagnostic)
        ensures
            d == (EventDiagnostic {
                event,
                bits: self@.bits,
                reads: self@.reads,
                writes: self@.writes,
                matches: self@.matches,
                last_read_mask: self@.last_read_mask,
                last_write_mask: self@.last_write_mask,
                last_mode: self@.last_mode,
            }),
    {
        EventDiagnostic {
            event,
            bits: self.bits,
            reads: self.reads,
            writes: self.writes,
            matches: self.matches,
            last_read_mask: self.last_read_mask,
            last_write_mask: self.last_write_mask,
            last_mode: self.last_mode,
        }
    }

    /// Consume a match for `mask` in `mode`: count it and clear the matched
    /// bits in CLR mode. No change when the condition does not hold.
    pub fn poll_event(&mut self, mask: u32, mode: u32) -> (r: Option<u32>)
        ensures
            r == spec_event_matches(old(self)@.bits, mask, mode),
            final(self)@.waiters == old(self)@.waiters,
            final(self)@.reads == old(self)@.reads && final(self)@.writes == old(self)@.writes,
            final(self)@.last_read_mask == old(self)@.last_read_mask,
            final(self)@.last_write_mask == old(self)@.last_write_mask,
            final(self)@.last_mode == old(self)@.last_mode,
            r is None ==> final(self)@.bits == old(self)@.bits && final(self)@.matches == old(self)@.matches,
            r matches Some(m) ==> final(self)@.bits == bits_after_match(old(self)@.bits, m, mode)
                && final(self)@.matches == sat_inc(old(self)@.matches),
    {
        let matched = match event_matches(self.bits, mask, mode) {
            Some(m) => m,
            None => return None,
        };
        self.matches = self.matches.saturating_add(1);
        if mode & WAITMODE_CLR != 0 {
            self.bits = self.bits & !matched;
        }
        Some(matched)
    }

    /// One read attempt: record the request, then [`EventGroup::poll_event`].
    pub fn begin_read(&mut self, mask: u32, mode: u32) -> (r: Option<u32>)
        ensures
            r == spec_event_matches(old(self)@.bits, mask, mode),
            final(self)@.waiters == old(self)@.waiters,
            final(self)@.reads == sat_inc(old(self)@.reads),
            final(self)@.last_read_mask == mask,
            final(self)@.last_mode == mode,
            final(self)@.writes == old(self)@.writes,
            final(self)@.last_write_mask == old(self)@.last_write_mask,
            r is None ==> final(self)@.bits == old(self)@.bits && final(self)@.matches == old(self)@.matches,
            r matches Some(m) ==> final(self)@.bits == bits_after_match(old(self)@.bits, m, mode)
                && final(self)@.matches == sat_inc(old(self)@.matches),
    {
        self.reads = self.reads.saturating_add(1);
        self.last_read_mask = mask;
        self.last_mode = mode;
        self.poll_event(mask, mode)
    }

    /// Before parking a reader: match once more, else register it in the
    /// first free entry. `Ok(Some(bits))` matched, `Ok(None)` registered,
    /// `Err(())` when every entry is taken.
    pub fn register_waiter(&mut self, semaphore: usize, mask: u32, mode: u32) -> (r: Result<Option<u32>, ()>)
        requires
            old(self).wf(),
        ensures
            final(self).wf(),
            final(self)@.reads == old(self)@.reads && final(self)@.writes == old(self)@.writes,
            final(self)@.last_read_mask == old(self)@.last_read_mask,
            final(self)@.last_write_mask == old(self)@.last_write_mask,
            final(self)@.last_mode == old(self)@.last_mode,
            spec_event_matches(old(self)@.bits, mask, mode) matches Some(m) ==> r == Ok::<Option<u32>, ()>(Some(m))
                && final(self)@.bits == bits_after_match(old(self)@.bits, m, mode)
                && final(self)@.matches == sat_inc(old(self)@.matches)
                && final(self)@.waiters == old(self)@.waiters,
            spec_event_matches(old(self)@.bits, mask, mode) is None ==> final(self)@.bits == old(self)@.bits
                && final(self)@.matches == old(self)@.matches && {
                let free = exists|i: int| 0 <= i < MAX_EVENT_WAITERS && old(self)@.waiters[i].semaphore == 0;
                &&& !free ==> r == Err::<Option<u32>, ()>(()) && final(self)@.waiters == old(self)@.waiters
                &&& free ==> r == Ok::<Option<u32>, ()>(None) && exists|i: int| {
                    &&& 0 <= i < MAX_EVENT_WAITERS
                    &&& old(self)@.waiters[i].semaphore == 0
                    &&& forall|j: int| 0 <= j < i ==> old(self)@.waiters[j].semaphore != 0
                    &&& final(self)@.waiters == old(self)@.waiters.update(i, EventWaiter { semaphore, mask, mode })
                }
            },
    {
        match self.poll_event(mask, mode) {
            Some(m) => return Ok(Some(m)),
            None => {},
        }
        let mut i: usize = 0;
        while i < MAX_EVENT_WAITERS
            invariant
                i <= MAX_EVENT_WAITERS,
                self.wf(),
                self@.waiters == old(self)@.waiters,
                self@.bits == old(self)@.bits,
                self@.matches == old(self)@.matches,
                self@.reads == old(self)@.reads && self@.writes == old(self)@.writes,
                self@.last_read_mask == old(self)@.last_read_mask,
                self@.last_write_mask == old(self)@.last_write_mask,
                self@.last_mode == old(self)@.last_mode,
                spec_event_matches(old(self)@.bits, mask, mode) is None,
                forall|j: int| 0 <= j < i ==> self@.waiters[j].semaphore != 0,
            decreases MAX_EVENT_WAITERS - i,
        {
            if self.waiters[i].semaphore == 0 {
                self.waiters.set(i, EventWaiter { semaphore, mask, mode });
                return Ok(None);
            }
            i += 1;
        }
        Err(())
    }

    /// Free the first entry registered with `semaphore`, if any.
    pub fn unregister_waiter(&mut self, semaphore: usize)
        requires
            old(self).wf(),
        ensures
            final(self).wf(),
            final(self)@.bits == old(self)@.bits,
            (forall|i: int| 0 <= i < MAX_EVENT_WAITERS ==> old(self)@.waiters[i].semaphore != semaphore)
                ==> final(self)@.waiters == old(self)@.waiters,
            forall|i: int| {
                &&& 0 <= i < MAX_EVENT_WAITERS
                &&& old(self)@.waiters[i].semaphore == semaphore
                &&& forall|j: int| 0 <= j < i ==> old(self)@.waiters[j].semaphore != semaphore
            } ==> final(self)@.waiters == old(self)@.waiters.update(i, empty_waiter()),
    {
        let mut i: usize = 0;
        while i < MAX_EVENT_WAITERS
            invariant
                i <= MAX_EVENT_WAITERS,
                self.wf(),
                self@.waiters == old(self)@.waiters,
                self@.bits == old(self)@.bits,
                forall|j: int| 0 <= j < i ==> self@.waiters[j].semaphore != semaphore,
            decreases MAX_EVENT_WAITERS - i,
        {
            if self.waiters[i].semaphore == semaphore {
                self.waiters.set(i, EventWaiter { semaphore: 0, mask: 0, mode: 0 });
                return;
            }
            i += 1;
        }
    }

    /// Set `mask` bits and list, per waiter entry, the semaphore to raise: a
    /// registered reader whose condition now holds, else 0.
    pub fn write(&mut self, mask: u32) -> (wake: Vec<usize>)
        requires
            old(self).wf(),
        ensures
            final(self).wf(),
            final(self)@.bits == old(self)@.bits | mask,
            final(self)@.writes == sat_inc(old(self)@.writes),
            final(self)@.last_write_mask == mask,
            final(self)@.waiters == old(self)@.waiters,
            final(self)@.reads == old(self)@.reads && final(self)@.matches == old(self)@.matches,
            final(self)@.last_read_mask == old(self)@.last_read_mask && final(self)@.last_mode == old(self)@.last_mode,
            wake@.len() == MAX_EVENT_WAITERS,
            forall|i: int| 0 <= i < MAX_EVENT_WAITERS ==> #[trigger] wake@[i] == ({
                let w = old(self)@.waiters[i];
                if w.semaphore != 0 && spec_event_matches(old(self)@.bits | mask, w.mask, w.mode) is Some {
                    w.semaphore
                } else {
                    0
                }
            }),
    {
        self.bits = self.bits | mask;
        self.writes = self.writes.saturating_add(1);
        self.last_write_mask = mask;
        let mut wake: Vec<usize> = Vec::new();
        let mut i: usize = 0;
        while i < MAX_EVENT_WAITERS
            invariant
                i <= MAX_EVENT_WAITERS,
                self.wf(),
                self@.waiters == old(self)@.waiters,
                self@.bits == old(self)@.bits | mask,
                wake@.len() == i,
                forall|k: int| 0 <= k < i ==> #[trigger] wake@[k] == ({
                    let w = old(self)@.waiters[k];
                    if w.semaphore != 0 && spec_event_matches(old(self)@.bits | mask, w.mask, w.mode) is Some {
                        w.semaphore
                    } else {
                        0
                    }
                }),
            decreases MAX_EVENT_WAITERS - i,
        {
            let w = self.waiters[i];
            if w.semaphore != 0 && event_matches(self.bits, w.mask, w.mode).is_some() {
                wake.push(w.semaphore);
            } else {
                wake.push(0);
            }
            i += 1;
        }
        wake
    }

    /// Clear `mask` bits.
    pub fn clear(&mut self, mask: u32)
        ensures
            final(self)@.bits == old(self)@.bits & !mask,
            final(self)@.waiters == old(self)@.waiters,
            final(self)@.reads == old(self)@.reads && final(self)@.writes == old(self)@.writes,
            final(self)@.matches == old(self)@.matches,
    {
        self.bits = self.bits & !mask;
    }

    /// Whether no reader is registered.
    pub fn is_idle(&self) -> (idle: bool)
        requires
            self.wf(),
        ensures
            idle == forall|i: int| 0 <= i < MAX_EVENT_WAITERS ==> self@.waiters[i].semaphore == 0,
    {
        let mut i: usize = 0;
        while i < MAX_EVENT_WAITERS
            invariant
                i <= MAX_EVENT_WAITERS,
                self.wf(),
                forall|j: int| 0 <= j < i ==> self@.waiters[j].semaphore == 0,
            decreases MAX_EVENT_WAITERS - i,
        {
            if self.waiters[i].semaphore != 0 {
                return false;
            }
            i += 1;
        }
        true
    }
}

/// Deadline of an event read: `timeout_ms` after `now`, wrapping.
pub fn event_read_deadline(now: u64, timeout_ms: u32) -> (d: u64)
    ensures
        d == (now + timeout_ms) % 0x1_0000_0000_0000_0000,
{
    now.wrapping_add(timeout_ms as u64)
}

/// How long a reader may park next: forever (`u32::MAX`) for an unbounded
/// wait, `None` once the deadline has passed, else the milliseconds left,
/// clamped to `u32::MAX`.
pub open spec fn spec_remaining_wait(forever: bool, deadline: u64, now: u64) -> Option<u32> {
    if forever {
        Some(u32::MAX)
    } else if now >= deadline {
        None
    } else {
        Some((if deadline - now > u32::MAX { u32::MAX as int } else { deadline - now }) as u32)
    }
}

/// [`spec_remaining_wait`].
pub fn remaining_wait(forever: bool, deadline: u64, now: u64) -> (r: Option<u32>)
    ensures
        r == spec_remaining_wait(forever, deadline, now),
        forever ==> r == Some(u32::MAX),
        !forever && now >= deadline ==> r is None,
        !forever && now < deadline ==> r == Some(
            (if deadline - now > u32::MAX { u32::MAX as int } else { deadline - now }) as u32,
        ),
{
    if forever {
        return Some(u32::MAX);
    }
    if now >= deadline {
        return None;
    }
    let left = deadline - now;
    if left > u32::MAX as u64 {
        Some(u32::MAX)
    } else {
        Some(left as u32)
    }
}

/// What an event read does next.
#[derive(Clone, Copy, Debug, PartialEq, Eq, Structural)]
pub enum EventReadAction {
    /// End the read with this value.
    Return(i32),
    /// Park the reader on its semaphore for at most this many milliseconds
    /// (`u32::MAX`: without limit), then report with
    /// [`EventGroup::read_woken`].
    Park(u32),
}

/// Status of a read that could not wait.
pub const EVENT_READ_NOK: i32 = 1;

impl EventGroup {
    /// One round of an event read by the reader parked on `semaphore`:
    /// count the attempt and take a match (returning its bits); past the
    /// deadline return 0; else register the reader and park it for the time
    /// left, or return [`EVENT_READ_NOK`] when every waiter entry is taken.
    pub fn read_step(&mut self, semaphore: usize, mask: u32, mode: u32, forever: bool, deadline: u64, now: u64) -> (a: EventReadAction)
        requires
            old(self).wf(),
        ensures
            final(self).wf(),
            final(self)@.reads == sat_inc(old(self)@.reads),
            final(self)@.last_read_mask == mask,
            final(self)@.last_mode == mode,
            final(self)@.writes == old(self)@.writes,
            final(self)@.last_write_mask == old(self)@.last_write_mask,
            spec_event_matches(old(self)@.bits, mask, mode) matches Some(m) ==> a == EventReadAction::Return(m as i32)
                && final(self)@.bits == bits_after_match(old(self)@.bits, m, mode)
                && final(self)@.matches == sat_inc(old(self)@.matches)
                && final(self)@.waiters == old(self)@.waiters,
            spec_event_matches(old(self)@.bits, mask, mode) is None ==> final(self)@.bits == old(self)@.bits
                && final(self)@.matches == old(self)@.matches,
            spec_event_matches(old(self)@.bits, mask, mode) is None && spec_remaining_wait(forever, deadline, now) is None
                ==> a == EventReadAction::Return(0) && final(self)@.waiters == old(self)@.waiters,
            spec_remaining_wait(forever, deadline, now) matches Some(ms) ==> (spec_event_matches(old(self)@.bits, mask, mode) is None
                ==> {
                let free = exists|i: int| 0 <= i < MAX_EVENT_WAITERS && old(self)@.waiters[i].semaphore == 0;
                &&& !free ==> a == EventReadAction::Return(EVENT_READ_NOK) && final(self)@.waiters == old(self)@.waiters
                &&& free ==> a == EventReadAction::Park(ms) && exists|i: int| {
                    &&& 0 <= i < MAX_EVENT_WAITERS
                    &&& old(self)@.waiters[i].semaphore == 0
                    &&& forall|j: int| 0 <= j < i ==> old(self)@.waiters[j].semaphore != 0
                    &&& final(self)@.waiters == old(self)@.waiters.update(i, EventWaiter { semaphore, mask, mode })
                }
            }),
    {
        match self.begin_read(mask, mode) {
            Some(m) => return EventReadAction::Return(m as i32),
            None => {},
        }
        let ms = match remaining_wait(forever, deadline, now) {
            Some(ms) => ms,
            None => return EventReadAction::Return(0),
        };
        match self.register_waiter(semaphore, mask, mode) {
            Ok(Some(m)) => EventReadAction::Return(m as i32),
            Ok(None) => EventReadAction::Park(ms),
            Err(()) => EventReadAction::Return(EVENT_READ_NOK),
        }
    }

    /// After a parked reader's wait: free its entry; a wait that ended
    /// without the semaphore ends the read with [`EVENT_READ_NOK`], one
    /// that got it reads again (`None`).
    pub fn read_woken(&mut self, semaphore: usize, acquired: bool) -> (r: Option<i32>)
        requires
            old(self).wf(),
        ensures
            final(self).wf(),
            r == (if acquired { None } else { Some(EVENT_READ_NOK) }),
            final(self)@.bits == old(self)@.bits,
            (forall|i: int| 0 <= i < MAX_EVENT_WAITERS ==> old(self)@.waiters[i].semaphore != semaphore)
                ==> final(self)@.waiters == old(self)@.waiters,
            forall|i: int| {
                &&& 0 <= i < MAX_EVENT_WAITERS
                &&& old(self)@.waiters[i].semaphore == semaphore
                &&& forall|j: int| 0 <= j < i ==> old(self)@.waiters[j].semaphore != semaphore
            } ==> final(self)@.waiters == old(self)@.waiters.update(i, empty_waiter()),
    {
        self.unregister_waiter(semaphore);
        if acquired {
            None
        } else {
            Some(EVENT_READ_NOK)
        }
    }
}

/// Handles of the live event groups, for diagnostics.
pub struct EventRegistry {
    groups: Vec<usize>,
}

impl EventRegistry {
    /// The slots (0 = free).
    pub closed spec fn view(&self) -> Seq<usize> {
        self.groups@
    }

    /// All slots free.
    pub fn new() -> (r: Self)
        ensures
            r@ == Seq::new(MAX_EVENT_GROUPS as nat, |i: int| 0usize),
    {
        let mut groups: Vec<usize> = Vec::new();
        let mut i: usize = 0;
        while i < MAX_EVENT_GROUPS
            invariant
                i <= MAX_EVENT_GROUPS,
                groups@ == Seq::new(i as nat, |k: int| 0usize),
            decreases MAX_EVENT_GROUPS - i,
        {
            groups.push(0);
            i += 1;
            assert(groups@ =~= Seq::new(i as nat, |k: int| 0usize));
        }
        EventRegistry { groups }
    }

    /// Record `group` in the first free slot; `false` when none is free.
    pub fn register(&mut self, group: usize) -> (ok: bool)
        ensures
            ok == exists|i: int| 0 <= i < old(self)@.len() && old(self)@[i] == 0,
            !ok ==> final(self)@ == old(self)@,
            ok ==> exists|i: int| {
                &&& 0 <= i < old(self)@.len()
                &&& old(self)@[i] == 0
                &&& forall|j: int| 0 <= j < i ==> old(self)@[j] != 0
                &&& final(self)@ == old(self)@.update(i, group)
            },
    {
        let mut i: usize = 0;
        while i < self.groups.len()
            invariant
                i <= self.groups@.len(),
                self@ == old(self)@,
                forall|j: int| 0 <= j < i ==> self@[j] != 0,
            decreases self.groups@.len() - i,
        {
            if self.groups[i] == 0 {
                self.groups.set(i, group);
                return true;
            }
            i += 1;
        }
        false
    }

    /// Free the first slot holding `group`, if any.
    pub fn unregister(&mut self, group: usize)
        ensures
            (forall|i: int| 0 <= i < old(self)@.len() ==> old(self)@[i] != group) ==> final(self)@ == old(self)@,
            forall|i: int| {
                &&& 0 <= i < old(self)@.len()
                &&& old(self)@[i] == group
                &&& forall|j: int| 0 <= j < i ==> old(self)@[j] != group
            } ==> final(self)@ == old(self)@.update(i, 0),
    {
        let mut i: usize = 0;
        while i < self.groups.len()
            invariant
                i <= self.groups@.len(),
                self@ == old(self)@,
                forall|j: int| 0 <= j < i ==> self@[j] != group,
            decreases self.groups@.len() - i,
        {
            if self.groups[i] == group {
                self.groups.set(i, 0);
                return;
            }
            i += 1;
        }
    }

    /// The live handles, in slot order, at most `limit` of them.
    pub fn live(&self, limit: usize) -> (v: Vec<usize>)
        ensures
            v@ == live_groups(self@, self@.len() as int).take(
                if live_groups(self@, self@.len() as int).len() < limit { live_groups(self@, self@.len() as int).len() as int } else { limit as int },
            ),
    {
        let mut v: Vec<usize> = Vec::new();
        let mut i: usize = 0;
        while i < self.groups.len() && v.len() < limit
            invariant
                i <= self.groups@.len(),
                v@.len() <= limit,
                v@.len() < limit ==> v@ == live_groups(self@, i as int),
                v@.len() == limit ==> v@ == live_groups(self@, self@.len() as int).take(limit as int),
                v@.len() == limit ==> live_groups(self@, i as int).len() >= limit && v@ == live_groups(self@, i as int).take(limit as int),
            decreases self.groups@.len() - i,
        {
            if self.groups[i] != 0 {
                v.push(self.groups[i]);
            }
            i += 1;
            proof {
                lemma_live_groups_prefix(self@, i as int, self@.len() as int);
            }
        }
        proof {
            lemma_live_groups_prefix(self@, i as int, self@.len() as int);
            let all = live_groups(self@, self@.len() as int);
            if v@.len() < limit {
                assert(all.take(all.len() as int) =~= all);
            }
        }
        v
    }
}

/// Nonzero entries among the first `n`, in order.
pub open spec fn live_groups(groups: Seq<usize>, n: int) -> Seq<usize>
    decreases n,
{
    if n <= 0 {
        Seq::empty()
    } else if groups[n - 1] != 0 {
        live_groups(groups, n - 1).push(groups[n - 1])
    } else {
        live_groups(groups, n - 1)
    }
}

/// The live entries of a prefix start the live entries of a longer prefix.
proof fn lemma_live_groups_prefix(groups: Seq<usize>, m: int, n: int)
    requires
        0 <= m <= n,
    ensures
        live_groups(groups, m).len() <= live_groups(groups, n).len(),
        live_groups(groups, n).take(live_groups(groups, m).len() as int) == live_groups(groups, m),
    decreases n - m,
{
    if m < n {
        lemma_live_groups_prefix(groups, m, n - 1);
        assert(live_groups(groups, n).take(live_groups(groups, m).len() as int) =~= live_groups(groups, n - 1).take(
            live_groups(groups, m).len() as int,
        ));
    }
}

} // verus!
