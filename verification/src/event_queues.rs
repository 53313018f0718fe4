//! The bounded event queues between vendor callbacks and the radio runner:
//! management frames, scan events, link events and external-auth triggers.
//! Each copies its event into a [`SlotQueue`] slot.
use vstd::prelude::*;
use crate::bytes::{prefix_vec, wrap_inc};
use crate::slot_queue::{SlotQueue, SlotState, SlotView};

verus! {

/// Largest management frame queued.
pub const MAX_MGMT_FRAME_LEN: usize = 768;
/// Management RX queue depth.
pub const MGMT_RX_QUEUE_DEPTH: usize = 8;
/// Scan event queue depth: a full BSS cache (32) plus the scan-done event.
pub const SCAN_EVENT_QUEUE_DEPTH: usize = 33;
/// Scan results accepted per scan transaction.
pub const MAX_SCAN_RESULTS: u32 = 32;
/// Link event queue depth.
pub const LINK_EVENT_QUEUE_DEPTH: usize = 4;
/// Largest association IE set kept per link event.
pub const MAX_ASSOCIATION_IE_LEN: usize = 768;
/// External-auth queue depth.
pub const EXTERNAL_AUTH_QUEUE_DEPTH: usize = 2;
/// Scan event kind: one BSS.
pub const SCAN_EVENT_RESULT: u8 = 1;
/// Scan event kind: scan finished.
pub const SCAN_EVENT_DONE: u8 = 2;
/// Link event kind: association result.
pub const LINK_EVENT_ASSOCIATE: u8 = 1;
/// Link event kind: disconnection.
pub const LINK_EVENT_DISCONNECT: u8 = 2;

/// The other slots of `after` equal those of `before`, and slot `k` holds a
/// freshly stamped ready event.
pub open spec fn published_at<T>(before: Seq<SlotView<T>>, after: Seq<SlotView<T>>, k: int, ticket: int) -> bool {
    &&& 0 <= k < before.len()
    &&& before[k].state == SlotState::Free
    &&& forall|j: int| 0 <= j < k ==> before[j].state != SlotState::Free
    &&& after.len() == before.len()
    &&& forall|j: int| 0 <= j < before.len() && j != k ==> after[j] == before[j]
    &&& after[k].state == SlotState::Ready
    &&& after[k].ticket == ticket
    &&& after[k].item is Some
}

proof fn lemma_published<T>(before: Seq<SlotView<T>>, after: Seq<SlotView<T>>, ticket: int, item: T)
    requires
        exists|k: int| {
            &&& 0 <= k < before.len()
            &&& before[k].state == SlotState::Free
            &&& forall|j: int| 0 <= j < k ==> before[j].state != SlotState::Free
            &&& after == before.update(k, SlotView { state: SlotState::Ready, ticket, item: Some(item) })
        },
    ensures
        exists|k: int| published_at(before, after, k, ticket) && after[k].item == Some(item),
{
    let k = choose|k: int| {
        &&& 0 <= k < before.len()
        &&& before[k].state == SlotState::Free
        &&& forall|j: int| 0 <= j < k ==> before[j].state != SlotState::Free
        &&& after == before.update(k, SlotView { state: SlotState::Ready, ticket, item: Some(item) })
    };
    assert(published_at(before, after, k, ticket) && after[k].item == Some(item));
}

/// Whether some slot is free.
pub open spec fn has_free<T>(slots: Seq<SlotView<T>>) -> bool {
    exists|k: int| 0 <= k < slots.len() && slots[k].state == SlotState::Free
}

/// One queued management frame.
pub struct MgmtFrame {
    pub frequency_mhz: u32,
    pub rssi_dbm: i32,
    pub bytes: Vec<u8>,
}

/// Management frames received for the supplicant.
pub struct MgmtRxQueue {
    pub queue: SlotQueue<MgmtFrame>,
}

impl MgmtRxQueue {
    /// Consistency of the underlying queue.
    pub open spec fn wf(&self) -> bool {
        self.queue.wf() && self.queue.view().len() == MGMT_RX_QUEUE_DEPTH
    }

    /// An empty queue.
    pub fn new() -> (q: Self)
        ensures
            q.wf(),
            forall|i: int| 0 <= i < MGMT_RX_QUEUE_DEPTH ==> q.queue.view()[i].state == SlotState::Free,
            q.queue.drops() == 0,
    {
        MgmtRxQueue { queue: SlotQueue::new(MGMT_RX_QUEUE_DEPTH) }
    }

    /// Copy a frame into the queue. Empty or oversized frames, and frames
    /// that find every slot held, are dropped and counted.
    pub fn enqueue(&mut self, frequency_mhz: u32, rssi_dbm: i32, frame: &[u8]) -> (ok: bool)
        requires
            old(self).wf(),
        ensures
            final(self).wf(),
            (frame@.len() == 0 || frame@.len() > MAX_MGMT_FRAME_LEN) ==> !ok
                && final(self).queue.view() == old(self).queue.view()
                && final(self).queue.attempts() == old(self).queue.attempts()
                && final(self).queue.drops() == wrap_inc(old(self).queue.drops()),
            0 < frame@.len() <= MAX_MGMT_FRAME_LEN ==> {
                &&& final(self).queue.attempts() == old(self).queue.attempts() + 1
                &&& ok == has_free(old(self).queue.view())
                &&& !ok ==> final(self).queue.view() == old(self).queue.view()
                    && final(self).queue.drops() == wrap_inc(old(self).queue.drops())
                &&& ok ==> final(self).queue.drops() == old(self).queue.drops() && exists|k: int| {
                    &&& published_at(old(self).queue.view(), final(self).queue.view(), k, old(self).queue.attempts())
                    &&& final(self).queue.view()[k].item matches Some(f)
                    &&& f.frequency_mhz == frequency_mhz && f.rssi_dbm == rssi_dbm && f.bytes@ == frame@
                }
            },
    {
        if frame.len() == 0 || frame.len() > MAX_MGMT_FRAME_LEN {
            self.queue.count_drop();
            return false;
        }
        let bytes = prefix_vec(frame, frame.len());
        assert(bytes@ =~= frame@);
        let item = MgmtFrame { frequency_mhz, rssi_dbm, bytes };
        let ghost copy = item;
        let ghost before = self.queue.view();
        let ghost ticket = self.queue.attempts();
        let ok = self.queue.enqueue(item);
        proof {
            if ok {
                lemma_published(before, self.queue.view(), ticket, copy);
            }
        }
        ok
    }

    /// Hold the oldest frame for reading (see [`SlotQueue::take_oldest`]).
    pub fn take_oldest(&mut self) -> (r: Option<usize>)
        requires
            old(self).wf(),
        ensures
            final(self).wf(),
            final(self).queue.attempts() == old(self).queue.attempts(),
            final(self).queue.drops() == old(self).queue.drops(),
            r is None <==> (exists|j: int| 0 <= j < old(self).queue.view().len() && old(self).queue.view()[j].state == SlotState::Writing)
                || (forall|j: int| 0 <= j < old(self).queue.view().len() ==> old(self).queue.view()[j].state != SlotState::Ready),
            r is None ==> final(self).queue.view() == old(self).queue.view(),
            r matches Some(i) ==> {
                &&& forall|j: int| 0 <= j < old(self).queue.view().len() ==> old(self).queue.view()[j].state != SlotState::Writing
                &&& 0 <= i < old(self).queue.view().len()
                &&& old(self).queue.view()[i as int].state == SlotState::Ready
                &&& final(self).queue.view() == old(self).queue.view().update(
                    i as int,
                    SlotView { state: SlotState::Reading, ..old(self).queue.view()[i as int] },
                )
                &&& old(self).queue.fresh() ==> forall|j: int| 0 <= j < old(self).queue.view().len()
                    && old(self).queue.view()[j].state == SlotState::Ready
                    ==> old(self).queue.view()[i as int].ticket <= old(self).queue.view()[j].ticket
            },
    {
        self.queue.take_oldest()
    }

    /// The frame in a slot being read.
    pub fn frame(&self, index: usize) -> (f: &MgmtFrame)
        requires
            self.wf(),
            index < MGMT_RX_QUEUE_DEPTH,
            self.queue.view()[index as int].state == SlotState::Ready || self.queue.view()[index as int].state == SlotState::Reading,
        ensures
            self.queue.view()[index as int].item == Some(*f),
    {
        self.queue.item(index)
    }

    /// Release a slot after reading it.
    pub fn release(&mut self, index: usize)
        requires
            old(self).wf(),
            index < MGMT_RX_QUEUE_DEPTH,
            old(self).queue.view()[index as int].state == SlotState::Reading,
        ensures
            final(self).wf(),
            final(self).queue.attempts() == old(self).queue.attempts(),
            final(self).queue.drops() == old(self).queue.drops(),
            final(self).queue.view() == old(self).queue.view().update(
                index as int,
                SlotView { state: SlotState::Free, ticket: old(self).queue.view()[index as int].ticket, item: None },
            ),
    {
        self.queue.release(index)
    }

    /// Whether any frame is held.
    pub fn has_pending(&self) -> (r: bool)
        requires
            self.wf(),
        ensures
            r == exists|j: int| 0 <= j < self.queue.view().len() && self.queue.view()[j].state != SlotState::Free,
    {
        self.queue.has_pending()
    }

    /// Frames dropped so far.
    pub fn dropped(&self) -> (n: u32)
        ensures
            n == self.queue.drops(),
    {
        self.queue.dropped()
    }
}

/// Metadata of one scan event.
#[derive(Clone, Copy, Debug, Eq, PartialEq)]
pub struct ScanMeta {
    pub kind: u8,
    pub capabilities: u16,
    pub flags: u32,
    pub bssid: [u8; 6],
    pub frequency_mhz: i32,
    pub beacon_interval: u16,
    pub quality: i32,
    pub level_mbm: i32,
    pub age_ms: u32,
    pub ie_len: usize,
    pub beacon_ie_len: usize,
    pub status: i32,
}

/// One queued scan event with its deep-copied IEs.
pub struct ScanEvent {
    pub meta: ScanMeta,
    pub ies: Vec<u8>,
}

/// Scan events of the current scan transaction.
pub struct ScanEventQueue {
    pub queue: SlotQueue<ScanEvent>,
    pub accepted_results: u32,
    pub truncated_results: u32,
    pub max_ie_len: usize,
}

/// The scan-done event with `status`.
pub open spec fn done_meta(meta: ScanMeta, status: i32) -> bool {
    &&& meta.kind == SCAN_EVENT_DONE
    &&& meta.capabilities == 0 && meta.flags == 0
    &&& meta.bssid@ == Seq::new(6, |i: int| 0u8)
    &&& meta.frequency_mhz == 0 && meta.beacon_interval == 0 && meta.quality == 0
    &&& meta.level_mbm == 0 && meta.age_ms == 0 && meta.ie_len == 0 && meta.beacon_ie_len == 0
    &&& meta.status == status
}

impl ScanEventQueue {
    /// Consistency of the underlying queue.
    pub open spec fn wf(&self) -> bool {
        self.queue.wf() && self.queue.view().len() == SCAN_EVENT_QUEUE_DEPTH
    }

    /// An empty queue accepting IE buffers of up to `max_ie_len` bytes.
    pub fn new(max_ie_len: usize) -> (q: Self)
        ensures
            q.wf(),
            forall|i: int| 0 <= i < SCAN_EVENT_QUEUE_DEPTH ==> q.queue.view()[i].state == SlotState::Free,
            q.queue.drops() == 0,
            q.accepted_results == 0 && q.truncated_results == 0,
            q.max_ie_len == max_ie_len,
    {
        ScanEventQueue {
            queue: SlotQueue::new(SCAN_EVENT_QUEUE_DEPTH),
            accepted_results: 0,
            truncated_results: 0,
            max_ie_len,
        }
    }

    /// Start a scan transaction: no results accepted yet.
    pub fn begin_transaction(&mut self)
        ensures
            final(self).accepted_results == 0,
            final(self).truncated_results == old(self).truncated_results,
            final(self).max_ie_len == old(self).max_ie_len,
            final(self).queue == old(self).queue,
    {
        self.accepted_results = 0;
    }

    /// Queue one BSS result. Malformed events (wrong kind, IE lengths that do
    /// not add up to the buffer, oversized IEs) are dropped; once the
    /// transaction holds `MAX_SCAN_RESULTS` results further ones are counted
    /// as truncated and reported as accepted, keeping a slot for scan-done.
    pub fn enqueue_result(&mut self, meta: ScanMeta, ies: &[u8]) -> (ok: bool)
        requires
            old(self).wf(),
        ensures
            final(self).wf(),
            final(self).max_ie_len == old(self).max_ie_len,
            ({
                let malformed = meta.kind != SCAN_EVENT_RESULT
                    || (if meta.ie_len + meta.beacon_ie_len > usize::MAX { usize::MAX as int } else { meta.ie_len + meta.beacon_ie_len }) != ies@.len()
                    || ies@.len() > old(self).max_ie_len;
                &&& malformed ==> !ok && final(self).queue.view() == old(self).queue.view()
                    && final(self).queue.attempts() == old(self).queue.attempts()
                    && final(self).queue.drops() == wrap_inc(old(self).queue.drops())
                    && final(self).accepted_results == old(self).accepted_results
                    && final(self).truncated_results == old(self).truncated_results
                &&& !malformed && old(self).accepted_results >= MAX_SCAN_RESULTS ==> ok
                    && final(self).queue == old(self).queue
                    && final(self).accepted_results == old(self).accepted_results
                    && final(self).truncated_results == wrap_inc(old(self).truncated_results)
                &&& !malformed && old(self).accepted_results < MAX_SCAN_RESULTS ==> {
                    &&& final(self).accepted_results == old(self).accepted_results + 1
                    &&& final(self).truncated_results == old(self).truncated_results
                    &&& final(self).queue.attempts() == old(self).queue.attempts() + 1
                    &&& ok == has_free(old(self).queue.view())
                    &&& !ok ==> final(self).queue.view() == old(self).queue.view()
                        && final(self).queue.drops() == wrap_inc(old(self).queue.drops())
                    &&& ok ==> final(self).queue.drops() == old(self).queue.drops() && exists|k: int| {
                        &&& published_at(old(self).queue.view(), final(self).queue.view(), k, old(self).queue.attempts())
                        &&& final(self).queue.view()[k].item matches Some(e)
                        &&& e.meta == meta && e.ies@ == ies@
                    }
                }
            }),
    {
        let total = meta.ie_len.saturating_add(meta.beacon_ie_len);
        if meta.kind != SCAN_EVENT_RESULT || total != ies.len() || ies.len() > self.max_ie_len {
            self.queue.count_drop();
            return false;
        }
        if self.accepted_results >= MAX_SCAN_RESULTS {
            self.truncated_results = self.truncated_results.wrapping_add(1);
            return true;
        }
        self.accepted_results = self.accepted_results + 1;
        let copy = prefix_vec(ies, ies.len());
        assert(copy@ =~= ies@);
        let item = ScanEvent { meta, ies: copy };
        let ghost g = item;
        let ghost before = self.queue.view();
        let ghost ticket = self.queue.attempts();
        let ok = self.queue.enqueue(item);
        proof {
            if ok {
                lemma_published(before, self.queue.view(), ticket, g);
            }
        }
        ok
    }

    /// Queue the scan-done event with `status`.
    pub fn enqueue_done(&mut self, status: i32) -> (ok: bool)
        requires
            old(self).wf(),
        ensures
            final(self).wf(),
            final(self).max_ie_len == old(self).max_ie_len,
            final(self).accepted_results == old(self).accepted_results,
            final(self).truncated_results == old(self).truncated_results,
            final(self).queue.attempts() == old(self).queue.attempts() + 1,
            ok == has_free(old(self).queue.view()),
            !ok ==> final(self).queue.view() == old(self).queue.view()
                && final(self).queue.drops() == wrap_inc(old(self).queue.drops()),
            ok ==> final(self).queue.drops() == old(self).queue.drops() && exists|k: int| {
                &&& published_at(old(self).queue.view(), final(self).queue.view(), k, old(self).queue.attempts())
                &&& final(self).queue.view()[k].item matches Some(e)
                &&& done_meta(e.meta, status) && e.ies@.len() == 0
            },
    {
        let bssid = [0u8; 6];
        assert(bssid@ =~= Seq::new(6, |i: int| 0u8));
        let meta = ScanMeta {
            kind: SCAN_EVENT_DONE,
            capabilities: 0,
            flags: 0,
            bssid,
            frequency_mhz: 0,
            beacon_interval: 0,
            quality: 0,
            level_mbm: 0,
            age_ms: 0,
            ie_len: 0,
            beacon_ie_len: 0,
            status,
        };
        let item = ScanEvent { meta, ies: Vec::new() };
        let ghost g = item;
        let ghost before = self.queue.view();
        let ghost ticket = self.queue.attempts();
        let ok = self.queue.enqueue(item);
        proof {
            if ok {
                lemma_published(before, self.queue.view(), ticket, g);
            }
        }
        ok
    }

    /// Hold the oldest event for reading.
    pub fn take_oldest(&mut self) -> (r: Option<usize>)
        requires
            old(self).wf(),
        ensures
            final(self).wf(),
            final(self).max_ie_len == old(self).max_ie_len,
            final(self).accepted_results == old(self).accepted_results,
            final(self).truncated_results == old(self).truncated_results,
            final(self).queue.attempts() == old(self).queue.attempts(),
            final(self).queue.drops() == old(self).queue.drops(),
            r is None <==> (exists|j: int| 0 <= j < old(self).queue.view().len() && old(self).queue.view()[j].state == SlotState::Writing)
                || (forall|j: int| 0 <= j < old(self).queue.view().len() ==> old(self).queue.view()[j].state != SlotState::Ready),
            r is None ==> final(self).queue.view() == old(self).queue.view(),
            r matches Some(i) ==> {
                &&& forall|j: int| 0 <= j < old(self).queue.view().len() ==> old(self).queue.view()[j].state != SlotState::Writing
                &&& 0 <= i < old(self).queue.view().len()
                &&& old(self).queue.view()[i as int].state == SlotState::Ready
                &&& final(self).queue.view() == old(self).queue.view().update(
                    i as int,
                    SlotView { state: SlotState::Reading, ..old(self).queue.view()[i as int] },
                )
                &&& old(self).queue.fresh() ==> forall|j: int| 0 <= j < old(self).queue.view().len()
                    && old(self).queue.view()[j].state == SlotState::Ready
                    ==> old(self).queue.view()[i as int].ticket <= old(self).queue.view()[j].ticket
            },
    {
        self.queue.take_oldest()
    }

    /// The event in a slot being read.
    pub fn event(&self, index: usize) -> (e: &ScanEvent)
        requires
            self.wf(),
            index < SCAN_EVENT_QUEUE_DEPTH,
            self.queue.view()[index as int].state == SlotState::Ready || self.queue.view()[index as int].state == SlotState::Reading,
        ensures
            self.queue.view()[index as int].item == Some(*e),
    {
        self.queue.item(index)
    }

    /// Release a slot after reading it.
    pub fn release(&mut self, index: usize)
        requires
            old(self).wf(),
            index < SCAN_EVENT_QUEUE_DEPTH,
            old(self).queue.view()[index as int].state == SlotState::Reading,
        ensures
            final(self).wf(),
            final(self).max_ie_len == old(self).max_ie_len,
            final(self).accepted_results == old(self).accepted_results,
            final(self).truncated_results == old(self).truncated_results,
            final(self).queue.attempts() == old(self).queue.attempts(),
            final(self).queue.drops() == old(self).queue.drops(),
            final(self).queue.view() == old(self).queue.view().update(
                index as int,
                SlotView { state: SlotState::Free, ticket: old(self).queue.view()[index as int].ticket, item: None },
            ),
    {
        self.queue.release(index)
    }

    /// Whether any event is held.
    pub fn has_pending(&self) -> (r: bool)
        requires
            self.wf(),
        ensures
            r == exists|j: int| 0 <= j < self.queue.view().len() && self.queue.view()[j].state != SlotState::Free,
    {
        self.queue.has_pending()
    }

    /// Take and release ready events until none is left, or until a
    /// producer still writing stops the taking (see [`SlotQueue::take_oldest`]).
    pub fn discard_pending(&mut self)
        requires
            old(self).wf(),
        ensures
            final(self).wf(),
            final(self).max_ie_len == old(self).max_ie_len,
            (forall|j: int| 0 <= j < SCAN_EVENT_QUEUE_DEPTH ==> final(self).queue.view()[j].state != SlotState::Ready)
                || (exists|j: int| 0 <= j < SCAN_EVENT_QUEUE_DEPTH && final(self).queue.view()[j].state == SlotState::Writing),
            forall|j: int| 0 <= j < SCAN_EVENT_QUEUE_DEPTH && old(self).queue.view()[j].state == SlotState::Reading
                ==> final(self).queue.view()[j].state == SlotState::Reading,
    {
        loop
            invariant
                self.wf(),
                self.max_ie_len == old(self).max_ie_len,
                forall|j: int| 0 <= j < SCAN_EVENT_QUEUE_DEPTH && old(self).queue.view()[j].state == SlotState::Reading
                    ==> self.queue.view()[j].state == SlotState::Reading,
            ensures
                self.wf(),
                self.max_ie_len == old(self).max_ie_len,
                (forall|j: int| 0 <= j < SCAN_EVENT_QUEUE_DEPTH ==> self.queue.view()[j].state != SlotState::Ready)
                    || (exists|j: int| 0 <= j < SCAN_EVENT_QUEUE_DEPTH && self.queue.view()[j].state == SlotState::Writing),
                forall|j: int| 0 <= j < SCAN_EVENT_QUEUE_DEPTH && old(self).queue.view()[j].state == SlotState::Reading
                    ==> self.queue.view()[j].state == SlotState::Reading,
            decreases ready_count(self.queue.view(), SCAN_EVENT_QUEUE_DEPTH as int),
        {
            let ghost before = self.queue.view();
            match self.take_oldest() {
                None => break,
                Some(index) => {
                    self.release(index);
                    proof {
                        lemma_ready_count_drop(before, self.queue.view(), index as int, SCAN_EVENT_QUEUE_DEPTH as int);
                    }
                },
            }
        }
    }

    /// Drop counter.
    pub fn dropped(&self) -> (n: u32)
        ensures
            n == self.queue.drops(),
    {
        self.queue.dropped()
    }
}

/// Number of ready slots among the first `n`.
pub open spec fn ready_count<T>(slots: Seq<SlotView<T>>, n: int) -> nat
    decreases n,
{
    if n <= 0 {
        0
    } else {
        ready_count(slots, n - 1) + if slots[n - 1].state == SlotState::Ready { 1nat } else { 0nat }
    }
}

proof fn lemma_ready_count_drop<T>(before: Seq<SlotView<T>>, after: Seq<SlotView<T>>, k: int, n: int)
    requires
        0 <= k < n,
        before.len() == after.len(),
        n <= before.len(),
        before[k].state == SlotState::Ready,
        after[k].state == SlotState::Free,
        forall|j: int| 0 <= j < before.len() && j != k ==> after[j].state == before[j].state,
    ensures
        ready_count(after, n) < ready_count(before, n),
    decreases n,
{
    if n - 1 == k {
        lemma_ready_count_same(before, after, k);
    } else {
        lemma_ready_count_drop(before, after, k, n - 1);
    }
}

proof fn lemma_ready_count_same<T>(before: Seq<SlotView<T>>, after: Seq<SlotView<T>>, n: int)
    requires
        0 <= n <= before.len(),
        before.len() == after.len(),
        forall|j: int| 0 <= j < n ==> after[j].state == before[j].state,
    ensures
        ready_count(after, n) == ready_count(before, n),
    decreases n,
{
    if n > 0 {
        lemma_ready_count_same(before, after, n - 1);
    }
}

/// Metadata of one association or disconnect event.
#[derive(Clone, Copy, Debug, Eq, PartialEq)]
pub struct LinkMeta {
    pub kind: u8,
    pub status_or_reason: u16,
    pub frequency_mhz: u16,
    pub bssid: [u8; 6],
    pub first_len: usize,
    pub second_len: usize,
}

/// One queued link event with both IE sets.
pub struct LinkEvent {
    pub meta: LinkMeta,
    pub first: Vec<u8>,
    pub second: Vec<u8>,
}

/// Association/disconnect events for the supplicant.
pub struct LinkEventQueue {
    pub queue: SlotQueue<LinkEvent>,
}

impl LinkEventQueue {
    /// Consistency of the underlying queue.
    pub open spec fn wf(&self) -> bool {
        self.queue.wf() && self.queue.view().len() == LINK_EVENT_QUEUE_DEPTH
    }

    /// An empty queue.
    pub fn new() -> (q: Self)
        ensures
            q.wf(),
            forall|i: int| 0 <= i < LINK_EVENT_QUEUE_DEPTH ==> q.queue.view()[i].state == SlotState::Free,
            q.queue.drops() == 0,
    {
        LinkEventQueue { queue: SlotQueue::new(LINK_EVENT_QUEUE_DEPTH) }
    }

    /// Queue a link event; IE sets whose lengths disagree with the metadata or
    /// exceed the IE capacity are dropped and counted.
    pub fn enqueue(&mut self, meta: LinkMeta, first: &[u8], second: &[u8]) -> (ok: bool)
        requires
            old(self).wf(),
        ensures
            final(self).wf(),
            ({
                let malformed = first@.len() != meta.first_len || second@.len() != meta.second_len
                    || first@.len() > MAX_ASSOCIATION_IE_LEN || second@.len() > MAX_ASSOCIATION_IE_LEN;
                &&& malformed ==> !ok && final(self).queue.view() == old(self).queue.view()
                    && final(self).queue.attempts() == old(self).queue.attempts()
                    && final(self).queue.drops() == wrap_inc(old(self).queue.drops())
                &&& !malformed ==> {
                    &&& final(self).queue.attempts() == old(self).queue.attempts() + 1
                    &&& ok == has_free(old(self).queue.view())
                    &&& !ok ==> final(self).queue.view() == old(self).queue.view()
                        && final(self).queue.drops() == wrap_inc(old(self).queue.drops())
                    &&& ok ==> final(self).queue.drops() == old(self).queue.drops() && exists|k: int| {
                        &&& published_at(old(self).queue.view(), final(self).queue.view(), k, old(self).queue.attempts())
                        &&& final(self).queue.view()[k].item matches Some(e)
                        &&& e.meta == meta && e.first@ == first@ && e.second@ == second@
                    }
                }
            }),
    {
        if first.len() != meta.first_len || second.len() != meta.second_len
            || first.len() > MAX_ASSOCIATION_IE_LEN || second.len() > MAX_ASSOCIATION_IE_LEN {
            self.queue.count_drop();
            return false;
        }
        let first_copy = prefix_vec(first, first.len());
        let second_copy = prefix_vec(second, second.len());
        assert(first_copy@ =~= first@);
        assert(second_copy@ =~= second@);
        let item = LinkEvent { meta, first: first_copy, second: second_copy };
        let ghost g = item;
        let ghost before = self.queue.view();
        let ghost ticket = self.queue.attempts();
        let ok = self.queue.enqueue(item);
        proof {
            if ok {
                lemma_published(before, self.queue.view(), ticket, g);
            }
        }
        ok
    }

    /// Hold the oldest event for reading.
    pub fn take_oldest(&mut self) -> (r: Option<usize>)
        requires
            old(self).wf(),
        ensures
            final(self).wf(),
            final(self).queue.attempts() == old(self).queue.attempts(),
            final(self).queue.drops() == old(self).queue.drops(),
            r is None <==> (exists|j: int| 0 <= j < old(self).queue.view().len() && old(self).queue.view()[j].state == SlotState::Writing)
                || (forall|j: int| 0 <= j < old(self).queue.view().len() ==> old(self).queue.view()[j].state != SlotState::Ready),
            r is None ==> final(self).queue.view() == old(self).queue.view(),
            r matches Some(i) ==> {
                &&& forall|j: int| 0 <= j < old(self).queue.view().len() ==> old(self).queue.view()[j].state != SlotState::Writing
                &&& 0 <= i < old(self).queue.view().len()
                &&& old(self).queue.view()[i as int].state == SlotState::Ready
                &&& final(self).queue.view() == old(self).queue.view().update(
                    i as int,
                    SlotView { state: SlotState::Reading, ..old(self).queue.view()[i as int] },
                )
                &&& old(self).queue.fresh() ==> forall|j: int| 0 <= j < old(self).queue.view().len()
                    && old(self).queue.view()[j].state == SlotState::Ready
                    ==> old(self).queue.view()[i as int].ticket <= old(self).queue.view()[j].ticket
            },
    {
        self.queue.take_oldest()
    }

    /// The event in a slot being read.
    pub fn event(&self, index: usize) -> (e: &LinkEvent)
        requires
            self.wf(),
            index < LINK_EVENT_QUEUE_DEPTH,
            self.queue.view()[index as int].state == SlotState::Ready || self.queue.view()[index as int].state == SlotState::Reading,
        ensures
            self.queue.view()[index as int].item == Some(*e),
    {
        self.queue.item(index)
    }

    /// Release a slot after reading it.
    pub fn release(&mut self, index: usize)
        requires
            old(self).wf(),
            index < LINK_EVENT_QUEUE_DEPTH,
            old(self).queue.view()[index as int].state == SlotState::Reading,
        ensures
            final(self).wf(),
            final(self).queue.attempts() == old(self).queue.attempts(),
            final(self).queue.drops() == old(self).queue.drops(),
            final(self).queue.view() == old(self).queue.view().update(
                index as int,
                SlotView { state: SlotState::Free, ticket: old(self).queue.view()[index as int].ticket, item: None },
            ),
    {
        self.queue.release(index)
    }

    /// Whether any event is held.
    pub fn has_pending(&self) -> (r: bool)
        requires
            self.wf(),
        ensures
            r == exists|j: int| 0 <= j < self.queue.view().len() && self.queue.view()[j].state != SlotState::Free,
    {
        self.queue.has_pending()
    }

    /// Drop counter.
    pub fn dropped(&self) -> (n: u32)
        ensures
            n == self.queue.drops(),
    {
        self.queue.dropped()
    }
}

/// One external-auth trigger from the driver.
#[derive(Clone, Copy, Debug, Eq, PartialEq)]
pub struct ExternalAuthEvent {
    pub abi_version: u32,
    pub action: u8,
    pub ssid_len: u8,
    pub bssid: [u8; 6],
    pub status: u16,
    pub key_mgmt_suite: u32,
    pub pmkid_present: u8,
    pub reserved: [u8; 3],
    pub ssid: [u8; 32],
    pub pmkid: [u8; 16],
}

/// External-auth triggers for the supplicant.
pub struct ExternalAuthQueue {
    pub queue: SlotQueue<ExternalAuthEvent>,
}

impl ExternalAuthQueue {
    /// Consistency of the underlying queue.
    pub open spec fn wf(&self) -> bool {
        self.queue.wf() && self.queue.view().len() == EXTERNAL_AUTH_QUEUE_DEPTH
    }

    /// An empty queue.
    pub fn new() -> (q: Self)
        ensures
            q.wf(),
            forall|i: int| 0 <= i < EXTERNAL_AUTH_QUEUE_DEPTH ==> q.queue.view()[i].state == SlotState::Free,
            q.queue.drops() == 0,
    {
        ExternalAuthQueue { queue: SlotQueue::new(EXTERNAL_AUTH_QUEUE_DEPTH) }
    }

    /// Queue a copy of `event`.
    pub fn enqueue(&mut self, event: ExternalAuthEvent) -> (ok: bool)
        requires
            old(self).wf(),
        ensures
            final(self).wf(),
            final(self).queue.attempts() == old(self).queue.attempts() + 1,
            ok == has_free(old(self).queue.view()),
            !ok ==> final(self).queue.view() == old(self).queue.view()
                && final(self).queue.drops() == wrap_inc(old(self).queue.drops()),
            ok ==> final(self).queue.drops() == old(self).queue.drops() && exists|k: int| {
                &&& published_at(old(self).queue.view(), final(self).queue.view(), k, old(self).queue.attempts())
                &&& final(self).queue.view()[k].item == Some(event)
            },
    {
        let ghost before = self.queue.view();
        let ghost ticket = self.queue.attempts();
        let ok = self.queue.enqueue(event);
        proof {
            if ok {
                lemma_published(before, self.queue.view(), ticket, event);
            }
        }
        ok
    }

    /// Hold the oldest event for reading.
    pub fn take_oldest(&mut self) -> (r: Option<usize>)
        requires
            old(self).wf(),
        ensures
            final(self).wf(),
            final(self).queue.attempts() == old(self).queue.attempts(),
            final(self).queue.drops() == old(self).queue.drops(),
            r is None <==> (exists|j: int| 0 <= j < old(self).queue.view().len() && old(self).queue.view()[j].state == SlotState::Writing)
                || (forall|j: int| 0 <= j < old(self).queue.view().len() ==> old(self).queue.view()[j].state != SlotState::Ready),
            r is None ==> final(self).queue.view() == old(self).queue.view(),
            r matches Some(i) ==> {
                &&& forall|j: int| 0 <= j < old(self).queue.view().len() ==> old(self).queue.view()[j].state != SlotState::Writing
                &&& 0 <= i < old(self).queue.view().len()
                &&& old(self).queue.view()[i as int].state == SlotState::Ready
                &&& final(self).queue.view() == old(self).queue.view().update(
                    i as int,
                    SlotView { state: SlotState::Reading, ..old(self).queue.view()[i as int] },
                )
                &&& old(self).queue.fresh() ==> forall|j: int| 0 <= j < old(self).queue.view().len()
                    && old(self).queue.view()[j].state == SlotState::Ready
                    ==> old(self).queue.view()[i as int].ticket <= old(self).queue.view()[j].ticket
            },
    {
        self.queue.take_oldest()
    }

    /// The event in a slot being read (a copy).
    pub fn event(&self, index: usize) -> (e: ExternalAuthEvent)
        requires
            self.wf(),
            index < EXTERNAL_AUTH_QUEUE_DEPTH,
            self.queue.view()[index as int].state == SlotState::Ready || self.queue.view()[index as int].state == SlotState::Reading,
        ensures
            self.queue.view()[index as int].item == Some(e),
    {
        *self.queue.item(index)
    }

    /// Release a slot after reading it.
    pub fn release(&mut self, index: usize)
        requires
            old(self).wf(),
            index < EXTERNAL_AUTH_QUEUE_DEPTH,
            old(self).queue.view()[index as int].state == SlotState::Reading,
        ensures
            final(self).wf(),
            final(self).queue.attempts() == old(self).queue.attempts(),
            final(self).queue.drops() == old(self).queue.drops(),
            final(self).queue.view() == old(self).queue.view().update(
                index as int,
                SlotView { state: SlotState::Free, ticket: old(self).queue.view()[index as int].ticket, item: None },
            ),
    {
        self.queue.release(index)
    }

    /// Whether any event is held.
    pub fn has_pending(&self) -> (r: bool)
        requires
            self.wf(),
        ensures
            r == exists|j: int| 0 <= j < self.queue.view().len() && self.queue.view()[j].state != SlotState::Free,
    {
        self.queue.has_pending()
    }

    /// Drop counter.
    pub fn dropped(&self) -> (n: u32)
        ensures
            n == self.queue.drops(),
    {
        self.queue.dropped()
    }
}

} // verus!
