//! A bounded slot queue with wrapping sequence numbers.
//!
//! A producer stamps the next sequence number and claims the first free slot
//! for writing, copies its event in and publishes it; the consumer takes
//! nothing while a producer is still writing (it could hold an earlier
//! sequence), and otherwise takes the ready slot with the oldest
//! sequence (by wrapping comparison), reads it in place and releases it. Each
//! sequence number is given out once per enqueue attempt, so while the pending
//! events are fewer than 2^31 attempts old the queue is first-in, first-out.
use vstd::prelude::*;
use crate::bytes::wrap_inc;
use crate::supplicant::{sequence_before, spec_sequence_before, lemma_sequence_order};

verus! {

/// Life cycle of one slot.
#[derive(Clone, Copy, Debug, Eq, PartialEq)]
pub enum SlotState {
    /// Holds nothing.
    Free,
    /// Claimed by a producer that is still copying its event in.
    Writing,
    /// Holds a published event.
    Ready,
    /// Held by the consumer until released.
    Reading,
}

/// Abstract content of one slot: its state, the position in the stream of
/// enqueue attempts at which its event was stamped, and the event.
pub struct SlotView<T> {
    pub state: SlotState,
    pub ticket: int,
    pub item: Option<T>,
}

/// A bounded slot queue.
pub struct SlotQueue<T> {
    states: Vec<SlotState>,
    sequences: Vec<u32>,
    items: Vec<Option<T>>,
    next_sequence: u32,
    dropped: u32,
    tickets: Ghost<Seq<int>>,
    next_ticket: Ghost<int>,
}

impl<T> SlotQueue<T> {
    /// The slots.
    pub closed spec fn view(&self) -> Seq<SlotView<T>> {
        Seq::new(
            self.states@.len(),
            |i: int| SlotView { state: self.states@[i], ticket: self.tickets@[i], item: self.items@[i] },
        )
    }

    /// Number of enqueue attempts so far (the next ticket).
    pub closed spec fn attempts(&self) -> int {
        self.next_ticket@
    }

    /// Drop counter.
    pub closed spec fn drops(&self) -> u32 {
        self.dropped
    }

    /// Internal consistency.
    pub closed spec fn wf(&self) -> bool {
        &&& self.states@.len() > 0
        &&& self.sequences@.len() == self.states@.len()
        &&& self.items@.len() == self.states@.len()
        &&& self.tickets@.len() == self.states@.len()
        &&& self.next_ticket@ >= 0
        &&& self.next_sequence as int == self.next_ticket@ % 0x1_0000_0000
        &&& forall|i: int| 0 <= i < self.states@.len() && self.states@[i] != SlotState::Free ==> {
            &&& 0 <= self.tickets@[i] < self.next_ticket@
            &&& self.sequences@[i] as int == self.tickets@[i] % 0x1_0000_0000
        }
        &&& forall|i: int| 0 <= i < self.states@.len() ==> (self.items@[i] is Some <==> (self.states@[i]
            == SlotState::Ready || self.states@[i] == SlotState::Reading))
        &&& forall|i: int, j: int| 0 <= i < self.states@.len() && 0 <= j < self.states@.len() && i != j
            && self.states@[i] != SlotState::Free && self.states@[j] != SlotState::Free
            ==> self.tickets@[i] != self.tickets@[j]
    }

    /// Every held event was stamped fewer than 2^31 attempts ago; then the
    /// wrapping order of sequence numbers is the stamping order.
    pub open spec fn fresh(&self) -> bool {
        forall|i: int| 0 <= i < self.view().len() && self.view()[i].state != SlotState::Free
            ==> self.attempts() - self.view()[i].ticket <= 0x8000_0000
    }

    /// A queue of `depth` free slots.
    pub fn new(depth: usize) -> (q: Self)
        requires
            depth > 0,
        ensures
            q.wf(),
            q.view().len() == depth,
            forall|i: int| 0 <= i < depth ==> q.view()[i].state == SlotState::Free,
            q.attempts() == 0,
            q.drops() == 0,
    {
        let mut states: Vec<SlotState> = Vec::new();
        let mut sequences: Vec<u32> = Vec::new();
        let mut items: Vec<Option<T>> = Vec::new();
        let mut i: usize = 0;
        while i < depth
            invariant
                i <= depth,
                states@.len() == i,
                sequences@.len() == i,
                items@.len() == i,
                forall|k: int| 0 <= k < i ==> states@[k] == SlotState::Free && items@[k] is None,
            decreases depth - i,
        {
            states.push(SlotState::Free);
            sequences.push(0);
            items.push(None);
            i += 1;
        }
        SlotQueue {
            states,
            sequences,
            items,
            next_sequence: 0,
            dropped: 0,
            tickets: Ghost(Seq::new(depth as nat, |k: int| 0int)),
            next_ticket: Ghost(0int),
        }
    }

    /// Count one rejected event without consuming a sequence number.
    pub fn count_drop(&mut self)
        requires
            old(self).wf(),
        ensures
            final(self).wf(),
            final(self).view() == old(self).view(),
            final(self).attempts() == old(self).attempts(),
            final(self).drops() == wrap_inc(old(self).drops()),
    {
        self.dropped = self.dropped.wrapping_add(1);
    }

    /// Stamp the next sequence number and claim the first free slot for
    /// writing; when every slot is held the event is dropped and counted.
    pub fn claim(&mut self) -> (r: Option<usize>)
        requires
            old(self).wf(),
        ensures
            final(self).wf(),
            final(self).attempts() == old(self).attempts() + 1,
            r is Some == exists|k: int| 0 <= k < old(self).view().len() && old(self).view()[k].state == SlotState::Free,
            r matches Some(k) ==> {
                &&& final(self).drops() == old(self).drops()
                &&& 0 <= k < old(self).view().len()
                &&& old(self).view()[k as int].state == SlotState::Free
                &&& forall|j: int| 0 <= j < k ==> old(self).view()[j].state != SlotState::Free
                &&& final(self).view() == old(self).view().update(
                    k as int,
                    SlotView { state: SlotState::Writing, ticket: old(self).attempts(), item: None },
                )
            },
            r is None ==> final(self).drops() == wrap_inc(old(self).drops()) && final(self).view() == old(self).view(),
    {
        let sequence = self.next_sequence;
        let ghost ticket = self.next_ticket@;
        self.next_sequence = self.next_sequence.wrapping_add(1);
        proof {
            self.next_ticket@ = ticket + 1;
            assert(self.next_sequence as int == self.next_ticket@ % 0x1_0000_0000) by (nonlinear_arith)
                requires
                    sequence as int == ticket % 0x1_0000_0000,
                    self.next_sequence == (if sequence == 0xFFFF_FFFF { 0 } else { sequence + 1 }),
                    self.next_ticket@ == ticket + 1,
                    ticket >= 0,
            ;
        }
        let mut k: usize = 0;
        while k < self.states.len()
            invariant
                self.wf(),
                k <= self.states@.len(),
                self.next_ticket@ == ticket + 1,
                ticket == old(self).next_ticket@,
                ticket >= 0,
                sequence as int == ticket % 0x1_0000_0000,
                forall|i: int| 0 <= i < self.states@.len() && self.states@[i] != SlotState::Free ==> self.tickets@[i] < ticket,
                self.view() == old(self).view(),
                self.dropped == old(self).dropped,
                forall|j: int| 0 <= j < k ==> self.states@[j] != SlotState::Free,
            decreases self.states@.len() - k,
        {
            match self.states[k] {
                SlotState::Free => {
                    let ghost before = self.view();
                    self.states.set(k, SlotState::Writing);
                    self.sequences.set(k, sequence);
                    proof {
                        self.tickets@ = self.tickets@.update(k as int, ticket);
                        assert(self.view() =~= before.update(
                            k as int,
                            SlotView { state: SlotState::Writing, ticket, item: None },
                        ));
                        assert(old(self).view()[k as int].state == SlotState::Free);
                        assert forall|i: int, j: int| 0 <= i < self.states@.len() && 0 <= j < self.states@.len() && i != j
                            && self.states@[i] != SlotState::Free && self.states@[j] != SlotState::Free
                            implies self.tickets@[i] != self.tickets@[j] by {
                            if i != k && j != k {
                                assert(before[i].state != SlotState::Free && before[j].state != SlotState::Free);
                            } else if i == k {
                                assert(before[j].state != SlotState::Free);
                            } else {
                                assert(before[i].state != SlotState::Free);
                            }
                        }
                        assert forall|i: int| 0 <= i < self.states@.len() && self.states@[i] != SlotState::Free implies {
                            &&& 0 <= self.tickets@[i] < self.next_ticket@
                            &&& self.sequences@[i] as int == self.tickets@[i] % 0x1_0000_0000
                        } by {
                            if i != k {
                                assert(before[i].state != SlotState::Free);
                            }
                        }
                        assert forall|i: int| 0 <= i < self.states@.len() implies (self.items@[i] is Some <==> (
                        self.states@[i] == SlotState::Ready || self.states@[i] == SlotState::Reading)) by {
                            if i != k {
                                assert(before[i].state == self.states@[i]);
                            }
                        }
                    }
                    return Some(k);
                },
                _ => {},
            }
            k += 1;
        }
        self.dropped = self.dropped.wrapping_add(1);
        None
    }

    /// Publish the event written into a claimed slot.
    pub fn publish(&mut self, index: usize, item: T)
        requires
            old(self).wf(),
            index < old(self).view().len(),
            old(self).view()[index as int].state == SlotState::Writing,
        ensures
            final(self).wf(),
            final(self).attempts() == old(self).attempts(),
            final(self).drops() == old(self).drops(),
            final(self).view() == old(self).view().update(
                index as int,
                SlotView { state: SlotState::Ready, ticket: old(self).view()[index as int].ticket, item: Some(item) },
            ),
    {
        let ghost before = self.view();
        self.states.set(index, SlotState::Ready);
        self.items.set(index, Some(item));
        assert(self.view() =~= before.update(
            index as int,
            SlotView { state: SlotState::Ready, ticket: before[index as int].ticket, item: Some(item) },
        ));
    }

    /// Stamp `item` with the next sequence number and publish it in the first
    /// free slot ([`SlotQueue::claim`] then [`SlotQueue::publish`]); when
    /// every slot is held the event is dropped and counted.
    pub fn enqueue(&mut self, item: T) -> (ok: bool)
        requires
            old(self).wf(),
        ensures
            final(self).wf(),
            final(self).attempts() == old(self).attempts() + 1,
            ok == exists|k: int| 0 <= k < old(self).view().len() && old(self).view()[k].state == SlotState::Free,
            ok ==> final(self).drops() == old(self).drops() && exists|k: int| {
                &&& 0 <= k < old(self).view().len()
                &&& old(self).view()[k].state == SlotState::Free
                &&& forall|j: int| 0 <= j < k ==> old(self).view()[j].state != SlotState::Free
                &&& final(self).view() == old(self).view().update(
                    k,
                    SlotView { state: SlotState::Ready, ticket: old(self).attempts(), item: Some(item) },
                )
            },
            !ok ==> final(self).drops() == wrap_inc(old(self).drops()) && final(self).view() == old(self).view(),
    {
        match self.claim() {
            Some(k) => {
                let ghost mid = self.view();
                self.publish(k, item);
                assert(self.view() =~= old(self).view().update(
                    k as int,
                    SlotView { state: SlotState::Ready, ticket: old(self).attempts(), item: Some(item) },
                ));
                true
            },
            None => false,
        }
    }

    /// Take the ready slot with the oldest sequence number and hold it for
    /// reading; `None` when nothing is ready or a producer is still writing
    /// (its event may be older). On a fresh queue the slot taken holds the
    /// earliest-stamped ready event.
    pub fn take_oldest(&mut self) -> (r: Option<usize>)
        requires
            old(self).wf(),
        ensures
            final(self).wf(),
            final(self).attempts() == old(self).attempts(),
            final(self).drops() == old(self).drops(),
            r is None <==> (exists|j: int| 0 <= j < old(self).view().len() && old(self).view()[j].state == SlotState::Writing)
                || (forall|j: int| 0 <= j < old(self).view().len() ==> old(self).view()[j].state != SlotState::Ready),
            r is None ==> final(self).view() == old(self).view(),
            r matches Some(i) ==> {
                &&& forall|j: int| 0 <= j < old(self).view().len() ==> old(self).view()[j].state != SlotState::Writing
                &&& 0 <= i < old(self).view().len()
                &&& old(self).view()[i as int].state == SlotState::Ready
                &&& final(self).view() == old(self).view().update(
                    i as int,
                    SlotView { state: SlotState::Reading, ..old(self).view()[i as int] },
                )
                &&& old(self).fresh() ==> forall|j: int| 0 <= j < old(self).view().len()
                    && old(self).view()[j].state == SlotState::Ready
                    ==> old(self).view()[i as int].ticket <= old(self).view()[j].ticket
            },
    {
        let mut w: usize = 0;
        while w < self.states.len()
            invariant
                self.wf(),
                w <= self.states@.len(),
                forall|k: int| 0 <= k < w ==> self.states@[k] != SlotState::Writing,
            decreases self.states@.len() - w,
        {
            match self.states[w] {
                SlotState::Writing => {
                    assert(self.view()[w as int].state == SlotState::Writing);
                    return None;
                },
                _ => {},
            }
            w += 1;
        }
        assert(forall|k: int| 0 <= k < self.view().len() ==> self.view()[k].state != SlotState::Writing);
        let mut best: Option<usize> = None;
        let mut best_sequence: u32 = 0;
        let mut j: usize = 0;
        while j < self.states.len()
            invariant
                self.wf(),
                j <= self.states@.len(),
                self.view() == old(self).view(),
                self.next_ticket == old(self).next_ticket,
                self.dropped == old(self).dropped,
                best is None ==> forall|k: int| 0 <= k < j ==> self.states@[k] != SlotState::Ready,
                best matches Some(b) ==> {
                    &&& b < j
                    &&& self.states@[b as int] == SlotState::Ready
                    &&& best_sequence == self.sequences@[b as int]
                    &&& old(self).fresh() ==> forall|k: int| 0 <= k < j && self.states@[k] == SlotState::Ready
                        ==> self.tickets@[b as int] <= self.tickets@[k]
                },
            decreases self.states@.len() - j,
        {
            match self.states[j] {
                SlotState::Ready => {
                    let sequence = self.sequences[j];
                    let replace = match best {
                        None => true,
                        Some(b) => {
                            let earlier = sequence_before(sequence, best_sequence);
                            proof {
                                if old(self).fresh() {
                                    let tj = self.tickets@[j as int];
                                    let tb = self.tickets@[b as int];
                                    assert(self.view()[j as int].state != SlotState::Free);
                                    assert(self.view()[b as int].state != SlotState::Free);
                                    assert(tj != tb);
                                    lemma_sequence_order(tj, tb);
                                }
                            }
                            earlier
                        },
                    };
                    if replace {
                        best = Some(j);
                        best_sequence = sequence;
                    }
                },
                _ => {},
            }
            j += 1;
        }
        match best {
            None => None,
            Some(b) => {
                let ghost before = self.view();
                self.states.set(b, SlotState::Reading);
                assert(self.view() =~= before.update(b as int, SlotView { state: SlotState::Reading, ..before[b as int] }));
                Some(b)
            },
        }
    }

    /// The event held in a slot being read.
    pub fn item(&self, index: usize) -> (item: &T)
        requires
            self.wf(),
            index < self.view().len(),
            self.view()[index as int].state == SlotState::Ready || self.view()[index as int].state == SlotState::Reading,
        ensures
            self.view()[index as int].item == Some(*item),
    {
        self.items[index].as_ref().unwrap()
    }

    /// Release a slot after reading it.
    pub fn release(&mut self, index: usize)
        requires
            old(self).wf(),
            index < old(self).view().len(),
            old(self).view()[index as int].state == SlotState::Reading,
        ensures
            final(self).wf(),
            final(self).attempts() == old(self).attempts(),
            final(self).drops() == old(self).drops(),
            final(self).view() == old(self).view().update(
                index as int,
                SlotView { state: SlotState::Free, ticket: old(self).view()[index as int].ticket, item: None },
            ),
    {
        let ghost before = self.view();
        self.states.set(index, SlotState::Free);
        self.items.set(index, None);
        assert(self.view() =~= before.update(
            index as int,
            SlotView { state: SlotState::Free, ticket: before[index as int].ticket, item: None },
        ));
    }

    /// Whether any slot holds an event (ready or being read).
    pub fn has_pending(&self) -> (r: bool)
        requires
            self.wf(),
        ensures
            r == exists|j: int| 0 <= j < self.view().len() && self.view()[j].state != SlotState::Free,
    {
        let mut j: usize = 0;
        while j < self.states.len()
            invariant
                self.wf(),
                j <= self.states@.len(),
                forall|k: int| 0 <= k < j ==> self.states@[k] == SlotState::Free,
            decreases self.states@.len() - j,
        {
            match self.states[j] {
                SlotState::Free => {},
                _ => {
                    assert(self.view()[j as int].state != SlotState::Free);
                    return true;
                },
            }
            j += 1;
        }
        false
    }

    /// Number of events dropped so far (wrapping).
    pub fn dropped(&self) -> (n: u32)
        ensures
            n == self.drops(),
    {
        self.dropped
    }
}

} // verus!
