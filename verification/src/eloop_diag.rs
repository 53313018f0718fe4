//! Counters of the supplicant event loop and of the authentication path, kept
//! for on-silicon diagnosis: per-queue event-loop counters, a ring of driver
//! events, dispatcher samples and the authentication record.
use vstd::prelude::*;
use crate::bytes::sat_inc;

verus! {

/// Event-loop queues tracked.
pub const DIAGNOSTIC_SLOTS: usize = 16;
/// Driver events kept.
pub const DRIVER_EVENT_SLOTS: usize = 32;
/// Authentication time-outs timed.
pub const AUTH_TIMEOUT_SLOTS: usize = 8;
/// Words of a TX-completion message kept.
pub const TX_COMPLETE_WORDS: usize = 12;
/// Bytes of an authentication frame kept.
pub const AUTH_FRAME_BYTES: usize = 32;
/// Bytes of a frame prefix kept.
pub const TX_FRAME_PREFIX_BYTES: usize = 32;

/// Counters of one event-loop queue.
#[derive(Clone, Copy, Debug, PartialEq, Eq, Structural)]
pub struct EloopDiagnostic {
    pub event: usize,
    pub posts: u32,
    pub post_failures: u32,
    pub reads: u32,
    pub nonempty_reads: u32,
    pub last_post_caller: usize,
    pub last_read_caller: usize,
    pub last_buffer: usize,
}

/// An unused record.
pub open spec fn empty_eloop(event: usize) -> EloopDiagnostic {
    EloopDiagnostic {
        event,
        posts: 0,
        post_failures: 0,
        reads: 0,
        nonempty_reads: 0,
        last_post_caller: 0,
        last_read_caller: 0,
        last_buffer: 0,
    }
}

fn eloop_record(event: usize) -> (d: EloopDiagnostic)
    ensures
        d == empty_eloop(event),
{
    EloopDiagnostic {
        event,
        posts: 0,
        post_failures: 0,
        reads: 0,
        nonempty_reads: 0,
        last_post_caller: 0,
        last_read_caller: 0,
        last_buffer: 0,
    }
}

/// One use of an event-loop queue.
#[derive(Clone, Copy, Debug, PartialEq, Eq, Structural)]
pub enum EloopUse {
    /// A post of `buffer` by `caller`; whether it failed.
    Post { failed: bool, caller: usize, buffer: usize },
    /// A read by `caller`; the buffer read, 0 when empty.
    Read { caller: usize, buffer: usize },
}

/// A queue's counters after one use.
pub open spec fn apply_use(d: EloopDiagnostic, u: EloopUse) -> EloopDiagnostic {
    match u {
        EloopUse::Post { failed, caller, buffer } => EloopDiagnostic {
            posts: sat_inc(d.posts),
            post_failures: if failed { sat_inc(d.post_failures) } else { d.post_failures },
            last_post_caller: caller,
            last_buffer: buffer,
            ..d
        },
        EloopUse::Read { caller, buffer } => EloopDiagnostic {
            reads: sat_inc(d.reads),
            nonempty_reads: if buffer != 0 { sat_inc(d.nonempty_reads) } else { d.nonempty_reads },
            last_read_caller: caller,
            last_buffer: if buffer != 0 { buffer } else { d.last_buffer },
            ..d
        },
    }
}

/// Index of the record of queue `event`, else of the first free record.
pub open spec fn eloop_index(slots: Seq<EloopDiagnostic>, event: usize) -> Option<int> {
    if exists|i: int| 0 <= i < slots.len() && slots[i].event == event {
        Some(choose|i: int| 0 <= i < slots.len() && slots[i].event == event && forall|j: int| 0 <= j < i ==> slots[j].event != event)
    } else if exists|i: int| 0 <= i < slots.len() && slots[i].event == 0 {
        Some(choose|i: int| 0 <= i < slots.len() && slots[i].event == 0 && forall|j: int| 0 <= j < i ==> slots[j].event != 0)
    } else {
        None
    }
}

/// Per-queue event-loop counters.
pub struct EloopTable {
    slots: Vec<EloopDiagnostic>,
}

impl EloopTable {
    /// The records (`event` 0 = free).
    pub closed spec fn view(&self) -> Seq<EloopDiagnostic> {
        self.slots@
    }

    /// All records free.
    pub fn new() -> (t: Self)
        ensures
            t@ == Seq::new(DIAGNOSTIC_SLOTS as nat, |i: int| empty_eloop(0)),
    {
        let mut slots: Vec<EloopDiagnostic> = Vec::new();
        let mut i: usize = 0;
        while i < DIAGNOSTIC_SLOTS
            invariant
                i <= DIAGNOSTIC_SLOTS,
                slots@ == Seq::new(i as nat, |k: int| empty_eloop(0)),
            decreases DIAGNOSTIC_SLOTS - i,
        {
            slots.push(eloop_record(0));
            i += 1;
            assert(slots@ =~= Seq::new(i as nat, |k: int| empty_eloop(0)));
        }
        EloopTable { slots }
    }

    fn find(&self, event: usize) -> (r: Option<usize>)
        requires
            event != 0,
        ensures
            r is None ==> eloop_index(self@, event) is None,
            r matches Some(i) ==> eloop_index(self@, event) == Some(i as int) && i < self@.len(),
    {
        let mut i: usize = 0;
        while i < self.slots.len()
            invariant
                i <= self.slots@.len(),
                forall|j: int| 0 <= j < i ==> self@[j].event != event,
            decreases self.slots@.len() - i,
        {
            if self.slots[i].event == event {
                proof {
                    let c = choose|c: int| 0 <= c < self@.len() && self@[c].event == event && forall|j: int| 0 <= j < c ==> self@[j].event != event;
                    assert(0 <= i < self@.len() && self@[i as int].event == event);
                    assert(c == i);
                }
                return Some(i);
            }
            i += 1;
        }
        i = 0;
        while i < self.slots.len()
            invariant
                i <= self.slots@.len(),
                forall|j: int| 0 <= j < self@.len() ==> self@[j].event != event,
                forall|j: int| 0 <= j < i ==> self@[j].event != 0,
            decreases self.slots@.len() - i,
        {
            if self.slots[i].event == 0 {
                proof {
                    let c = choose|c: int| 0 <= c < self@.len() && self@[c].event == 0 && forall|j: int| 0 <= j < c ==> self@[j].event != 0;
                    assert(0 <= i < self@.len() && self@[i as int].event == 0);
                    assert(c == i);
                }
                return Some(i);
            }
            i += 1;
        }
        None
    }

    /// Count a use of queue `event` (non-null), taking a free record for a
    /// queue seen the first time; dropped when none is free.
    pub fn record(&mut self, event: usize, u: EloopUse)
        requires
            event != 0,
        ensures
            eloop_index(old(self)@, event) is None ==> final(self)@ == old(self)@,
            eloop_index(old(self)@, event) matches Some(i) ==> final(self)@ == old(self)@.update(
                i,
                apply_use(EloopDiagnostic { event, ..old(self)@[i] }, u),
            ),
    {
        let i = match self.find(event) {
            Some(i) => i,
            None => return,
        };
        let d = EloopDiagnostic { event, ..self.slots[i] };
        let updated = match u {
            EloopUse::Post { failed, caller, buffer } => EloopDiagnostic {
                posts: d.posts.saturating_add(1),
                post_failures: if failed { d.post_failures.saturating_add(1) } else { d.post_failures },
                last_post_caller: caller,
                last_buffer: buffer,
                ..d
            },
            EloopUse::Read { caller, buffer } => EloopDiagnostic {
                reads: d.reads.saturating_add(1),
                nonempty_reads: if buffer != 0 { d.nonempty_reads.saturating_add(1) } else { d.nonempty_reads },
                last_read_caller: caller,
                last_buffer: if buffer != 0 { buffer } else { d.last_buffer },
                ..d
            },
        };
        self.slots.set(i, updated);
    }

    /// The records in use, in slot order, at most `limit` of them.
    pub fn snapshot(&self, limit: usize) -> (v: Vec<EloopDiagnostic>)
        ensures
            v@ == used_eloop(self@, self@.len() as int).take(
                if used_eloop(self@, self@.len() as int).len() < limit {
                    used_eloop(self@, self@.len() as int).len() as int
                } else {
                    limit as int
                },
            ),
    {
        let mut v: Vec<EloopDiagnostic> = Vec::new();
        let mut i: usize = 0;
        while i < self.slots.len() && v.len() < limit
            invariant
                i <= self.slots@.len(),
                v@.len() <= limit,
                v@.len() < limit ==> v@ == used_eloop(self@, i as int),
                v@.len() == limit ==> used_eloop(self@, i as int).len() >= limit && v@ == used_eloop(
                    self@,
                    i as int,
                ).take(limit as int),
            decreases self.slots@.len() - i,
        {
            if self.slots[i].event != 0 {
                v.push(self.slots[i]);
            }
            i += 1;
            proof {
                if v@.len() == limit {
                    assert(used_eloop(self@, i as int).take(limit as int) =~= v@);
                }
            }
        }
        proof {
            lemma_used_eloop_prefix(self@, i as int, self@.len() as int);
            let all = used_eloop(self@, self@.len() as int);
            if v@.len() < limit {
                assert(all.take(all.len() as int) =~= all);
            } else {
                assert(all.take(limit as int) =~= used_eloop(self@, i as int).take(limit as int));
            }
        }
        v
    }
}

/// Records in use among the first `n`, in order.
pub open spec fn used_eloop(slots: Seq<EloopDiagnostic>, n: int) -> Seq<EloopDiagnostic>
    decreases n,
{
    if n <= 0 {
        Seq::empty()
    } else if slots[n - 1].event != 0 {
        used_eloop(slots, n - 1).push(slots[n - 1])
    } else {
        used_eloop(slots, n - 1)
    }
}

proof fn lemma_used_eloop_prefix(slots: Seq<EloopDiagnostic>, m: int, n: int)
    requires
        0 <= m <= n,
    ensures
        used_eloop(slots, m).len() <= used_eloop(slots, n).len(),
        used_eloop(slots, n).take(used_eloop(slots, m).len() as int) == used_eloop(slots, m),
    decreases n - m,
{
    if m < n {
        lemma_used_eloop_prefix(slots, m, n - 1);
        assert(used_eloop(slots, n).take(used_eloop(slots, m).len() as int) =~= used_eloop(slots, n - 1).take(
            used_eloop(slots, m).len() as int,
        ));
    }
}

/// One packet consumed by the driver-event dispatcher.
#[derive(Clone, Copy, Debug, PartialEq, Eq, Structural)]
pub struct DriverEventDiagnostic {
    pub sequence: u32,
    pub command: u32,
    pub length: u32,
    pub payload0: u32,
}

/// The first payload word of a driver event: read only when the payload has
/// at least four bytes.
pub fn driver_event_payload(length: u32, word: u32) -> (p: u32)
    ensures
        p == (if length >= 4 { word } else { 0 }),
{
    if length >= 4 {
        word
    } else {
        0
    }
}

/// The last [`DRIVER_EVENT_SLOTS`] driver events.
pub struct DriverEventHistory {
    entries: Vec<DriverEventDiagnostic>,
    next: usize,
    total: u32,
}

/// Abstract history: every event recorded, oldest first (numbered from 1,
/// the count saturating).
pub struct DriverEventView {
    pub entries: Seq<DriverEventDiagnostic>,
    pub next: int,
    pub total: u32,
}

impl DriverEventHistory {
    /// Abstract state.
    pub closed spec fn view(&self) -> DriverEventView {
        DriverEventView { entries: self.entries@, next: self.next as int, total: self.total }
    }

    /// Ring shape.
    pub closed spec fn wf(&self) -> bool {
        &&& self.entries@.len() == DRIVER_EVENT_SLOTS
        &&& self.next < DRIVER_EVENT_SLOTS
    }

    /// No events.
    pub fn new() -> (h: Self)
        ensures
            h.wf(),
            h@.total == 0,
            h@.next == 0,
    {
        let mut entries: Vec<DriverEventDiagnostic> = Vec::new();
        let mut i: usize = 0;
        while i < DRIVER_EVENT_SLOTS
            invariant
                i <= DRIVER_EVENT_SLOTS,
                entries@.len() == i,
            decreases DRIVER_EVENT_SLOTS - i,
        {
            entries.push(DriverEventDiagnostic { sequence: 0, command: 0, length: 0, payload0: 0 });
            i += 1;
        }
        DriverEventHistory { entries, next: 0, total: 0 }
    }

    /// Record a packet: numbered by the saturating count, stored at the next
    /// ring position.
    pub fn record(&mut self, command: u32, length: u32, payload0: u32)
        requires
            old(self).wf(),
        ensures
            final(self).wf(),
            final(self)@.total == sat_inc(old(self)@.total),
            final(self)@.entries == old(self)@.entries.update(
                old(self)@.next,
                DriverEventDiagnostic { sequence: final(self)@.total, command, length, payload0 },
            ),
            final(self)@.next == (old(self)@.next + 1) % DRIVER_EVENT_SLOTS as int,
    {
        self.total = self.total.saturating_add(1);
        let index = self.next;
        self.entries.set(index, DriverEventDiagnostic { sequence: self.total, command, length, payload0 });
        self.next = if index + 1 < DRIVER_EVENT_SLOTS { index + 1 } else { 0 };
    }

    /// The retained events in recording order, at most `limit`: the oldest is
    /// at the next position once the ring has wrapped, else at 0.
    pub fn snapshot(&self, limit: usize) -> (v: Vec<DriverEventDiagnostic>)
        requires
            self.wf(),
        ensures
            ({
                let retained: int = if self@.total < DRIVER_EVENT_SLOTS { self@.total as int } else { DRIVER_EVENT_SLOTS as int };
                let count: int = if retained < limit { retained } else { limit as int };
                let oldest: int = if self@.total > DRIVER_EVENT_SLOTS { self@.next } else { 0 };
                &&& v@.len() == count
                &&& forall|k: int| 0 <= k < count ==> #[trigger] v@[k] == self@.entries[(oldest + k) % DRIVER_EVENT_SLOTS as int]
            }),
    {
        let retained: usize = if (self.total as usize) < DRIVER_EVENT_SLOTS { self.total as usize } else { DRIVER_EVENT_SLOTS };
        let count = if retained < limit { retained } else { limit };
        let oldest: usize = if (self.total as usize) > DRIVER_EVENT_SLOTS { self.next } else { 0 };
        let mut v: Vec<DriverEventDiagnostic> = Vec::new();
        let mut k: usize = 0;
        while k < count
            invariant
                k <= count <= DRIVER_EVENT_SLOTS,
                oldest < DRIVER_EVENT_SLOTS,
                self.wf(),
                v@.len() == k,
                forall|j: int| 0 <= j < k ==> #[trigger] v@[j] == self@.entries[(oldest + j) % DRIVER_EVENT_SLOTS as int],
            decreases count - k,
        {
            let index = (oldest + k) % DRIVER_EVENT_SLOTS;
            v.push(self.entries[index]);
            k += 1;
        }
        v
    }
}

/// The last entry into the supplicant's event dispatcher.
#[derive(Clone, Copy, Debug, PartialEq, Eq, Structural)]
pub struct SupplicantEventDiagnostic {
    pub calls: u32,
    pub event: i32,
    pub context: usize,
    pub wifi_device: usize,
    pub eloop_status: i32,
}

impl SupplicantEventDiagnostic {
    /// No call yet.
    pub fn new() -> (d: Self)
        ensures
            d == (SupplicantEventDiagnostic { calls: 0, event: 0, context: 0, wifi_device: 0, eloop_status: 0 }),
    {
        SupplicantEventDiagnostic { calls: 0, event: 0, context: 0, wifi_device: 0, eloop_status: 0 }
    }

    /// Record one dispatcher entry.
    pub fn record(&mut self, event: i32, context: usize, wifi_device: usize, eloop_status: i32)
        ensures
            *final(self) == (SupplicantEventDiagnostic {
                calls: sat_inc(old(self).calls),
                event,
                context,
                wifi_device,
                eloop_status,
            }),
    {
        self.calls = self.calls.saturating_add(1);
        self.event = event;
        self.context = context;
        self.wifi_device = wifi_device;
        self.eloop_status = eloop_status;
    }
}

/// Register values seen at the dispatcher's buffer-clear call.
#[derive(Clone, Copy, Debug, PartialEq, Eq, Structural)]
pub struct DriverDispatchDiagnostic {
    pub samples: u32,
    pub caller: usize,
    pub command_register: usize,
    pub length_register: usize,
}

/// Whether `caller` lies in the driver-event consumer, the code between the
/// start of the consumer and the start of the next function.
pub fn is_driver_event_consumer(caller: usize, start: usize, end: usize) -> (r: bool)
    ensures
        r == (start < end && start <= caller < end),
{
    start < end && start <= caller && caller < end
}

impl DriverDispatchDiagnostic {
    /// No sample yet.
    pub fn new() -> (d: Self)
        ensures
            d == (DriverDispatchDiagnostic { samples: 0, caller: 0, command_register: 0, length_register: 0 }),
    {
        DriverDispatchDiagnostic { samples: 0, caller: 0, command_register: 0, length_register: 0 }
    }

    /// Record the dispatcher's registers when the call comes from the driver
    /// event consumer (code `[start, end)`); other callers are ignored.
    pub fn record_dispatch_registers(&mut self, caller: usize, command: usize, length: usize, start: usize, end: usize)
        ensures
            !(start < end && start <= caller < end) ==> *final(self) == *old(self),
            (start < end && start <= caller < end) ==> *final(self) == (DriverDispatchDiagnostic {
                samples: sat_inc(old(self).samples),
                caller,
                command_register: command,
                length_register: length,
            }),
    {
        if !is_driver_event_consumer(caller, start, end) {
            return;
        }
        self.samples = self.samples.saturating_add(1);
        self.caller = caller;
        self.command_register = command;
        self.length_register = length;
    }
}

/// Raw MAC/BSSID receive-filter registers of one hardware VAP.
#[derive(Clone, Copy, Debug, PartialEq, Eq, Structural)]
pub struct MacFilterDiagnostic {
    pub combined: u32,
    pub station_tail: u32,
    pub bssid_tail: u32,
}

/// Register addresses (combined, station tail, BSSID tail) of VAP `vap_id`'s
/// receive filter; `None` past the third VAP.
pub fn mac_filter_registers(vap_id: usize) -> (r: Option<(usize, usize, usize)>)
    ensures
        vap_id == 0 ==> r == Some((0x4421_0404usize, 0x4421_0400usize, 0x4421_0408usize)),
        vap_id == 1 ==> r == Some((0x4421_042cusize, 0x4421_0428usize, 0x4421_0430usize)),
        vap_id == 2 ==> r == Some((0x4421_0524usize, 0x4421_0520usize, 0x4421_0528usize)),
        vap_id > 2 ==> r is None,
{
    if vap_id == 0 {
        Some((0x4421_0404, 0x4421_0400, 0x4421_0408))
    } else if vap_id == 1 {
        Some((0x4421_042c, 0x4421_0428, 0x4421_0430))
    } else if vap_id == 2 {
        Some((0x4421_0524, 0x4421_0520, 0x4421_0528))
    } else {
        None
    }
}

/// Hardware MAC receive counters.
#[derive(Clone, Copy, Debug, PartialEq, Eq, Structural)]
pub struct MacRxStatistics {
    pub ampdu: u32,
    pub successful_mpdu_in_ampdu: u32,
    pub failed_mpdu_in_ampdu: u32,
    pub successful_mpdu: u32,
    pub failed_mpdu: u32,
    pub filtered_mpdu: u32,
}

impl MacRxStatistics {
    /// All counters zero.
    pub fn zero() -> (s: Self)
        ensures
            s == (MacRxStatistics {
                ampdu: 0,
                successful_mpdu_in_ampdu: 0,
                failed_mpdu_in_ampdu: 0,
                successful_mpdu: 0,
                failed_mpdu: 0,
                filtered_mpdu: 0,
            }),
    {
        MacRxStatistics {
            ampdu: 0,
            successful_mpdu_in_ampdu: 0,
            failed_mpdu_in_ampdu: 0,
            successful_mpdu: 0,
            failed_mpdu: 0,
            filtered_mpdu: 0,
        }
    }
}

/// Little-endian 16-bit field at `at`.
pub open spec fn le16_at(frame: Seq<u8>, at: int) -> u16 {
    (frame[at] + frame[at + 1] * 256) as u16
}

/// Whether a frame is an 802.11 authentication frame (subtype 0xb0).
pub open spec fn is_auth_frame(frame: Seq<u8>) -> bool {
    frame.len() > 0 && frame[0] & 0xfc == 0xb0
}

/// Algorithm, sequence and status of an authentication frame.
pub fn classify_auth_frame(frame: &[u8]) -> (r: Option<(u16, u16, u16)>)
    ensures
        !(is_auth_frame(frame@) && frame@.len() >= 30) ==> r is None,
        is_auth_frame(frame@) && frame@.len() >= 30 ==> r == Some(
            (le16_at(frame@, 24), le16_at(frame@, 26), le16_at(frame@, 28)),
        ),
{
    if frame.len() < 30 || frame[0] & 0xfc != 0xb0 {
        return None;
    }
    let algorithm = frame[24] as u16 + frame[25] as u16 * 256;
    let sequence = frame[26] as u16 + frame[27] as u16 * 256;
    let status = frame[28] as u16 + frame[29] as u16 * 256;
    Some((algorithm, sequence, status))
}

/// Whether a received Ethernet prefix carries EAPOL (ethertype 0x888e).
pub fn is_eapol_prefix(length: u32, prefix: &[u8; 32]) -> (r: bool)
    ensures
        r == (length >= 14 && prefix@[12] == 0x88 && prefix@[13] == 0x8e),
{
    length >= 14 && prefix[12] == 0x88 && prefix[13] == 0x8e
}

/// Completion status (bits 28..31) of a TX descriptor control word.
pub fn descriptor_status(control: u32) -> (s: u8)
    ensures
        s == (control >> 28u32) & 0x0f,
{
    let v = (control >> 28u32) & 0x0f;
    assert(v < 256) by (bit_vector)
        requires
            v == (control >> 28u32) & 0x0f,
    ;
    v as u8
}

/// Data counts (bits 4..15) of a TX descriptor control word.
pub fn descriptor_data_counts(control: u32) -> (c: u16)
    ensures
        c == (control >> 4u32) & 0x0fff,
{
    let v = (control >> 4u32) & 0x0fff;
    assert(v < 65536) by (bit_vector)
        requires
            v == (control >> 4u32) & 0x0fff,
    ;
    v as u16
}

/// VAP id of a VAP (low four bits of its first word), 0xff without one.
pub fn vap_id_of(first_word: Option<u32>) -> (id: u8)
    ensures
        first_word is None ==> id == 0xff,
        first_word matches Some(w) ==> id == (w as u8) & 0x0f,
{
    match first_word {
        Some(w) => (w as u8) & 0x0f,
        None => 0xff,
    }
}

/// Authentication state-machine observations.
#[derive(Clone, Copy, Debug)]
pub struct AuthDiagnostic {
    pub dmac_rx_calls: u32,
    pub dmac_rx_auth_frames: u32,
    pub dmac_rx_auth_seq2_frames: u32,
    pub hmac_ingress_calls: u32,
    pub hmac_ingress_auth_frames: u32,
    pub hmac_ingress_auth_seq2_frames: u32,
    pub tx_auth_frames: u32,
    pub tx_algorithm: u16,
    pub tx_sequence: u16,
    pub tx_netbuf: usize,
    pub tx_destination: [u8; 6],
    pub tx_source: [u8; 6],
    pub tx_bssid: [u8; 6],
    pub tx_frame_len: u16,
    pub tx_frame: [u8; 32],
    pub tx_vap_id: u8,
    pub tx_mac_filter: MacFilterDiagnostic,
    pub rx_statistics_at_tx: MacRxStatistics,
    pub rx_statistics_at_timeout: MacRxStatistics,
    pub rx_filter_before_tx: u32,
    pub rx_filter_after_override: u32,
    pub tx_complete_calls: u32,
    pub tx_complete_after_auth: u32,
    pub tx_complete_skb: usize,
    pub tx_complete_frame: usize,
    pub tx_complete_status: u8,
    pub tx_complete_data_counts: u16,
    pub tx_complete_frame_prefix: [u8; 32],
    pub bridge_xmit_calls: u32,
    pub bridge_xmit_result: i32,
    pub bridge_xmit_skb: usize,
    pub netif_rx_calls: u32,
    pub netif_rx_eapol_frames: u32,
    pub netif_rx_length: u32,
    pub netif_rx_prefix: [u8; 32],
    pub netif_rx_eapol_length: u32,
    pub netif_rx_eapol_prefix: [u8; 32],
    pub auth_tx_complete_calls: u32,
    pub auth_tx_status: u8,
    pub auth_tx_data_counts: u16,
    pub last_tx_complete_words: [u32; 12],
    pub wait_state_calls: u32,
    pub auth_frames: u32,
    pub auth_seq2_frames: u32,
    pub last_algorithm: u16,
    pub last_sequence: u16,
    pub last_status: u16,
    pub last_handler_result: u32,
    pub timeout_calls: u32,
    pub first_auth_seq2_systick_ms: u64,
    pub last_auth_seq2_systick_ms: u64,
    pub first_auth_seq2_tcxo_ms: u64,
    pub last_auth_seq2_tcxo_ms: u64,
    pub timeout_systick_ms: [u64; 8],
    pub timeout_tcxo_ms: [u64; 8],
}

/// A TX-completion observation.
#[derive(Clone, Copy, Debug)]
pub struct TxCompletion {
    pub words: [u32; 12],
    pub skb: usize,
    pub frame: usize,
    pub is_auth: bool,
    pub status: u8,
    pub data_counts: u16,
    pub frame_prefix: [u8; 32],
}

/// An authentication request handed to the TX path.
#[derive(Clone, Copy, Debug)]
pub struct TxAuthRequest {
    pub algorithm: u16,
    pub sequence: u16,
    pub netbuf: usize,
    pub destination: [u8; 6],
    pub source: [u8; 6],
    pub bssid: [u8; 6],
    pub frame_len: u16,
    pub frame: [u8; 32],
    pub vap_id: u8,
    pub mac_filter: MacFilterDiagnostic,
    pub rx_statistics: MacRxStatistics,
    pub rx_filter_before: u32,
    pub rx_filter_after: u32,
}

impl AuthDiagnostic {
    /// Nothing observed.
    pub fn new() -> (d: Self)
        ensures
            d.wait_state_calls == 0 && d.auth_frames == 0 && d.timeout_calls == 0,
            d.first_auth_seq2_systick_ms == 0 && d.tx_auth_frames == 0,
            d.dmac_rx_calls == 0 && d.hmac_ingress_calls == 0 && d.tx_complete_calls == 0,
            d.netif_rx_calls == 0 && d.bridge_xmit_calls == 0,
    {
        let stats = MacRxStatistics::zero();
        AuthDiagnostic {
            dmac_rx_calls: 0,
            dmac_rx_auth_frames: 0,
            dmac_rx_auth_seq2_frames: 0,
            hmac_ingress_calls: 0,
            hmac_ingress_auth_frames: 0,
            hmac_ingress_auth_seq2_frames: 0,
            tx_auth_frames: 0,
            tx_algorithm: 0,
            tx_sequence: 0,
            tx_netbuf: 0,
            tx_destination: [0u8; 6],
            tx_source: [0u8; 6],
            tx_bssid: [0u8; 6],
            tx_frame_len: 0,
            tx_frame: [0u8; 32],
            tx_vap_id: 0,
            tx_mac_filter: MacFilterDiagnostic { combined: 0, station_tail: 0, bssid_tail: 0 },
            rx_statistics_at_tx: stats,
            rx_statistics_at_timeout: stats,
            rx_filter_before_tx: 0,
            rx_filter_after_override: 0,
            tx_complete_calls: 0,
            tx_complete_after_auth: 0,
            tx_complete_skb: 0,
            tx_complete_frame: 0,
            tx_complete_status: 0,
            tx_complete_data_counts: 0,
            tx_complete_frame_prefix: [0u8; 32],
            bridge_xmit_calls: 0,
            bridge_xmit_result: 0,
            bridge_xmit_skb: 0,
            netif_rx_calls: 0,
            netif_rx_eapol_frames: 0,
            netif_rx_length: 0,
            netif_rx_prefix: [0u8; 32],
            netif_rx_eapol_length: 0,
            netif_rx_eapol_prefix: [0u8; 32],
            auth_tx_complete_calls: 0,
            auth_tx_status: 0,
            auth_tx_data_counts: 0,
            last_tx_complete_words: [0u32; 12],
            wait_state_calls: 0,
            auth_frames: 0,
            auth_seq2_frames: 0,
            last_algorithm: 0,
            last_sequence: 0,
            last_status: 0,
            last_handler_result: 0,
            timeout_calls: 0,
            first_auth_seq2_systick_ms: 0,
            last_auth_seq2_systick_ms: 0,
            first_auth_seq2_tcxo_ms: 0,
            last_auth_seq2_tcxo_ms: 0,
            timeout_systick_ms: [0u64; 8],
            timeout_tcxo_ms: [0u64; 8],
        }
    }

    /// The wait-for-sequence-2 handler saw a frame (classified when it is an
    /// authentication frame) at the given times.
    pub fn on_wait_auth(&mut self, auth: Option<(u16, u16, u16)>, systick_ms: u64, tcxo_ms: u64)
        ensures
            auth is None ==> *final(self) == (AuthDiagnostic { wait_state_calls: sat_inc(old(self).wait_state_calls), ..*old(self) }),
            auth matches Some((algorithm, sequence, status)) ==> {
                let base = AuthDiagnostic {
                    wait_state_calls: sat_inc(old(self).wait_state_calls),
                    auth_frames: sat_inc(old(self).auth_frames),
                    last_algorithm: algorithm,
                    last_sequence: sequence,
                    last_status: status,
                    ..*old(self)
                };
                &&& sequence != 2 ==> *final(self) == base
                &&& sequence == 2 ==> *final(self) == (AuthDiagnostic {
                    auth_seq2_frames: sat_inc(old(self).auth_seq2_frames),
                    first_auth_seq2_systick_ms: if old(self).first_auth_seq2_systick_ms == 0 { systick_ms } else { old(self).first_auth_seq2_systick_ms },
                    first_auth_seq2_tcxo_ms: if old(self).first_auth_seq2_systick_ms == 0 { tcxo_ms } else { old(self).first_auth_seq2_tcxo_ms },
                    last_auth_seq2_systick_ms: systick_ms,
                    last_auth_seq2_tcxo_ms: tcxo_ms,
                    ..base
                })
            },
    {
        self.wait_state_calls = self.wait_state_calls.saturating_add(1);
        match auth {
            Some((algorithm, sequence, status)) => {
                self.auth_frames = self.auth_frames.saturating_add(1);
                self.last_algorithm = algorithm;
                self.last_sequence = sequence;
                self.last_status = status;
                if sequence == 2 {
                    self.auth_seq2_frames = self.auth_seq2_frames.saturating_add(1);
                    if self.first_auth_seq2_systick_ms == 0 {
                        self.first_auth_seq2_systick_ms = systick_ms;
                        self.first_auth_seq2_tcxo_ms = tcxo_ms;
                    }
                    self.last_auth_seq2_systick_ms = systick_ms;
                    self.last_auth_seq2_tcxo_ms = tcxo_ms;
                }
            },
            None => {},
        }
    }

    /// The wait-for-sequence-2 handler returned `result`.
    pub fn on_handler_result(&mut self, result: u32)
        ensures
            *final(self) == (AuthDiagnostic { last_handler_result: result, ..*old(self) }),
    {
        self.last_handler_result = result;
    }

    /// A management frame reached the host MAC (its authentication sequence
    /// when it is an authentication frame).
    pub fn on_hmac_ingress(&mut self, auth_sequence: Option<u16>)
        ensures
            auth_sequence is None ==> *final(self) == (AuthDiagnostic {
                hmac_ingress_calls: sat_inc(old(self).hmac_ingress_calls),
                ..*old(self)
            }),
            auth_sequence matches Some(s) ==> *final(self) == (AuthDiagnostic {
                hmac_ingress_calls: sat_inc(old(self).hmac_ingress_calls),
                hmac_ingress_auth_frames: sat_inc(old(self).hmac_ingress_auth_frames),
                hmac_ingress_auth_seq2_frames: if s == 2 { sat_inc(old(self).hmac_ingress_auth_seq2_frames) } else { old(self).hmac_ingress_auth_seq2_frames },
                ..*old(self)
            }),
    {
        self.hmac_ingress_calls = self.hmac_ingress_calls.saturating_add(1);
        match auth_sequence {
            Some(s) => {
                self.hmac_ingress_auth_frames = self.hmac_ingress_auth_frames.saturating_add(1);
                if s == 2 {
                    self.hmac_ingress_auth_seq2_frames = self.hmac_ingress_auth_seq2_frames.saturating_add(1);
                }
            },
            None => {},
        }
    }

    /// A frame reached the device-side receive path.
    pub fn on_dmac_rx(&mut self, auth_sequence: Option<u16>)
        ensures
            auth_sequence is None ==> *final(self) == (AuthDiagnostic { dmac_rx_calls: sat_inc(old(self).dmac_rx_calls), ..*old(self) }),
            auth_sequence matches Some(s) ==> *final(self) == (AuthDiagnostic {
                dmac_rx_calls: sat_inc(old(self).dmac_rx_calls),
                dmac_rx_auth_frames: sat_inc(old(self).dmac_rx_auth_frames),
                dmac_rx_auth_seq2_frames: if s == 2 { sat_inc(old(self).dmac_rx_auth_seq2_frames) } else { old(self).dmac_rx_auth_seq2_frames },
                ..*old(self)
            }),
    {
        self.dmac_rx_calls = self.dmac_rx_calls.saturating_add(1);
        match auth_sequence {
            Some(s) => {
                self.dmac_rx_auth_frames = self.dmac_rx_auth_frames.saturating_add(1);
                if s == 2 {
                    self.dmac_rx_auth_seq2_frames = self.dmac_rx_auth_seq2_frames.saturating_add(1);
                }
            },
            None => {},
        }
    }

    /// The bridge transmitted `skb` with `result`.
    pub fn on_bridge_xmit(&mut self, result: i32, skb: usize)
        ensures
            *final(self) == (AuthDiagnostic {
                bridge_xmit_calls: sat_inc(old(self).bridge_xmit_calls),
                bridge_xmit_result: result,
                bridge_xmit_skb: skb,
                ..*old(self)
            }),
    {
        self.bridge_xmit_calls = self.bridge_xmit_calls.saturating_add(1);
        self.bridge_xmit_result = result;
        self.bridge_xmit_skb = skb;
    }

    /// A frame of `length` bytes reached the host network interface; EAPOL
    /// frames are counted apart.
    pub fn on_netif_rx(&mut self, length: u32, prefix: [u8; 32])
        ensures
            !(length >= 14 && prefix@[12] == 0x88 && prefix@[13] == 0x8e) ==> *final(self) == (AuthDiagnostic {
                netif_rx_calls: sat_inc(old(self).netif_rx_calls),
                netif_rx_length: length,
                netif_rx_prefix: prefix,
                ..*old(self)
            }),
            (length >= 14 && prefix@[12] == 0x88 && prefix@[13] == 0x8e) ==> *final(self) == (AuthDiagnostic {
                netif_rx_calls: sat_inc(old(self).netif_rx_calls),
                netif_rx_length: length,
                netif_rx_prefix: prefix,
                netif_rx_eapol_frames: sat_inc(old(self).netif_rx_eapol_frames),
                netif_rx_eapol_length: length,
                netif_rx_eapol_prefix: prefix,
                ..*old(self)
            }),
    {
        self.netif_rx_calls = self.netif_rx_calls.saturating_add(1);
        self.netif_rx_length = length;
        self.netif_rx_prefix = prefix;
        if is_eapol_prefix(length, &prefix) {
            self.netif_rx_eapol_frames = self.netif_rx_eapol_frames.saturating_add(1);
            self.netif_rx_eapol_length = length;
            self.netif_rx_eapol_prefix = prefix;
        }
    }

    /// An authentication request went to the TX path.
    pub fn on_tx_auth(&mut self, r: TxAuthRequest)
        ensures
            *final(self) == (AuthDiagnostic {
                tx_auth_frames: sat_inc(old(self).tx_auth_frames),
                tx_algorithm: r.algorithm,
                tx_sequence: r.sequence,
                tx_netbuf: r.netbuf,
                tx_destination: r.destination,
                tx_source: r.source,
                tx_bssid: r.bssid,
                tx_frame_len: r.frame_len,
                tx_frame: r.frame,
                tx_vap_id: r.vap_id,
                tx_mac_filter: r.mac_filter,
                rx_statistics_at_tx: r.rx_statistics,
                rx_filter_before_tx: r.rx_filter_before,
                rx_filter_after_override: r.rx_filter_after,
                ..*old(self)
            }),
    {
        self.tx_auth_frames = self.tx_auth_frames.saturating_add(1);
        self.tx_algorithm = r.algorithm;
        self.tx_sequence = r.sequence;
        self.tx_netbuf = r.netbuf;
        self.tx_destination = r.destination;
        self.tx_source = r.source;
        self.tx_bssid = r.bssid;
        self.tx_frame_len = r.frame_len;
        self.tx_frame = r.frame;
        self.tx_vap_id = r.vap_id;
        self.tx_mac_filter = r.mac_filter;
        self.rx_statistics_at_tx = r.rx_statistics;
        self.rx_filter_before_tx = r.rx_filter_before;
        self.rx_filter_after_override = r.rx_filter_after;
    }

    /// A TX completion arrived.
    pub fn on_tx_complete(&mut self, c: TxCompletion)
        ensures
            ({
                let base = AuthDiagnostic {
                    tx_complete_calls: sat_inc(old(self).tx_complete_calls),
                    tx_complete_after_auth: if old(self).tx_auth_frames != 0 { sat_inc(old(self).tx_complete_after_auth) } else { old(self).tx_complete_after_auth },
                    tx_complete_skb: c.skb,
                    tx_complete_frame: c.frame,
                    tx_complete_status: c.status,
                    tx_complete_data_counts: c.data_counts,
                    tx_complete_frame_prefix: c.frame_prefix,
                    last_tx_complete_words: c.words,
                    ..*old(self)
                };
                &&& !c.is_auth ==> *final(self) == base
                &&& c.is_auth ==> *final(self) == (AuthDiagnostic {
                    auth_tx_complete_calls: sat_inc(old(self).auth_tx_complete_calls),
                    auth_tx_status: c.status,
                    auth_tx_data_counts: c.data_counts,
                    ..base
                })
            }),
    {
        self.tx_complete_calls = self.tx_complete_calls.saturating_add(1);
        if self.tx_auth_frames != 0 {
            self.tx_complete_after_auth = self.tx_complete_after_auth.saturating_add(1);
        }
        self.tx_complete_skb = c.skb;
        self.tx_complete_frame = c.frame;
        self.tx_complete_status = c.status;
        self.tx_complete_data_counts = c.data_counts;
        self.tx_complete_frame_prefix = c.frame_prefix;
        if c.is_auth {
            self.auth_tx_complete_calls = self.auth_tx_complete_calls.saturating_add(1);
            self.auth_tx_status = c.status;
            self.auth_tx_data_counts = c.data_counts;
        }
        self.last_tx_complete_words = c.words;
    }

    /// An authentication timed out: count it, keep the receive counters and,
    /// for the first [`AUTH_TIMEOUT_SLOTS`] time-outs, their times.
    pub fn on_auth_timeout(&mut self, systick_ms: u64, tcxo_ms: u64, statistics: MacRxStatistics)
        ensures
            final(self).timeout_calls == sat_inc(old(self).timeout_calls),
            final(self).rx_statistics_at_timeout == statistics,
            old(self).timeout_calls < AUTH_TIMEOUT_SLOTS ==> final(self).timeout_systick_ms@ == old(self).timeout_systick_ms@.update(old(self).timeout_calls as int, systick_ms)
                && final(self).timeout_tcxo_ms@ == old(self).timeout_tcxo_ms@.update(old(self).timeout_calls as int, tcxo_ms),
            old(self).timeout_calls >= AUTH_TIMEOUT_SLOTS ==> final(self).timeout_systick_ms == old(self).timeout_systick_ms
                && final(self).timeout_tcxo_ms == old(self).timeout_tcxo_ms,
            *final(self) == (AuthDiagnostic {
                timeout_calls: final(self).timeout_calls,
                rx_statistics_at_timeout: statistics,
                timeout_systick_ms: final(self).timeout_systick_ms,
                timeout_tcxo_ms: final(self).timeout_tcxo_ms,
                ..*old(self)
            }),
    {
        let slot = self.timeout_calls;
        self.timeout_calls = self.timeout_calls.saturating_add(1);
        self.rx_statistics_at_timeout = statistics;
        if (slot as usize) < AUTH_TIMEOUT_SLOTS {
            let i = slot as usize;
            self.timeout_systick_ms[i] = systick_ms;
            self.timeout_tcxo_ms[i] = tcxo_ms;
        }
    }
}

} // verus!
