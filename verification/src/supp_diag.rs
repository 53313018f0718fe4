//! Non-secret diagnostics of the supplicant port: the ring of recent
//! association results, authentication-frame observations, progress
//! stamps, and the packed port diagnostic word.
use vstd::prelude::*;
use crate::bytes::{sat_inc, le16};
use crate::supplicant::{association_comeback_interval, comeback_from, authentication_header, AuthenticationHeader};
use crate::diag_text::{hex32, hex32_spec};

verus! {

/// Association results kept.
pub const ASSOCIATION_ATTEMPT_CAPACITY: usize = 8;
/// Comeback interval recorded when a response has none.
pub const NO_COMEBACK_INTERVAL: u32 = u32::MAX;

/// One association result.
#[derive(Clone, Copy, Debug, PartialEq, Eq, Structural)]
pub struct AssociationAttemptDiagnostic {
    pub sequence: u32,
    pub timestamp_ms: u32,
    pub raw_status: u32,
    pub status: u32,
    pub response_ie_len: u32,
    /// Association comeback interval in TUs, `u32::MAX` when absent.
    pub comeback_tu: u32,
}

/// An empty entry (sequence 0: never written).
pub open spec fn empty_attempt() -> AssociationAttemptDiagnostic {
    AssociationAttemptDiagnostic {
        sequence: 0,
        timestamp_ms: 0,
        raw_status: 0,
        status: 0,
        response_ie_len: 0,
        comeback_tu: NO_COMEBACK_INTERVAL,
    }
}

/// Ring slot of the result numbered `sequence` (numbers start at 1).
pub open spec fn attempt_slot(sequence: u32) -> int {
    vstd::wrapping::u32_specs::wrapping_sub(sequence, 1) as int % ASSOCIATION_ATTEMPT_CAPACITY as int
}

/// Entries written (non-zero sequence) among the first `n`, in slot order.
pub open spec fn written_attempts(slots: Seq<AssociationAttemptDiagnostic>, n: int) -> Seq<AssociationAttemptDiagnostic>
    decreases n,
{
    if n <= 0 {
        Seq::empty()
    } else if slots[n - 1].sequence != 0 {
        written_attempts(slots, n - 1).push(slots[n - 1])
    } else {
        written_attempts(slots, n - 1)
    }
}

/// Whether entries are ordered by sequence number.
pub open spec fn sorted_by_sequence(s: Seq<AssociationAttemptDiagnostic>) -> bool {
    forall|i: int, j: int| 0 <= i < j < s.len() ==> s[i].sequence <= s[j].sequence
}

/// The recent association results.
pub struct AssociationAttempts {
    next_sequence: u32,
    slots: Vec<AssociationAttemptDiagnostic>,
}

impl AssociationAttempts {
    /// The number the next result gets.
    pub closed spec fn next_sequence(&self) -> u32 {
        self.next_sequence
    }

    /// The slots.
    pub closed spec fn slots(&self) -> Seq<AssociationAttemptDiagnostic> {
        self.slots@
    }

    /// Exactly [`ASSOCIATION_ATTEMPT_CAPACITY`] slots.
    pub closed spec fn wf(&self) -> bool {
        self.slots@.len() == ASSOCIATION_ATTEMPT_CAPACITY
    }

    /// No result yet; numbering starts at 1.
    pub fn new() -> (a: Self)
        ensures
            a.wf(),
            a.next_sequence() == 1,
            a.slots() == Seq::new(ASSOCIATION_ATTEMPT_CAPACITY as nat, |i: int| empty_attempt()),
    {
        let mut slots: Vec<AssociationAttemptDiagnostic> = Vec::new();
        let mut i: usize = 0;
        while i < ASSOCIATION_ATTEMPT_CAPACITY
            invariant
                i <= ASSOCIATION_ATTEMPT_CAPACITY,
                slots@ == Seq::new(i as nat, |k: int| empty_attempt()),
            decreases ASSOCIATION_ATTEMPT_CAPACITY - i,
        {
            slots.push(AssociationAttemptDiagnostic {
                sequence: 0,
                timestamp_ms: 0,
                raw_status: 0,
                status: 0,
                response_ie_len: 0,
                comeback_tu: NO_COMEBACK_INTERVAL,
            });
            i += 1;
            assert(slots@ =~= Seq::new(i as nat, |k: int| empty_attempt()));
        }
        AssociationAttempts { next_sequence: 1, slots }
    }

    /// Record an association result at `timestamp_ms`: its raw and
    /// normalized status, the response IE length and comeback interval. It
    /// takes the next number (wrapping) and that number's slot. Returns the
    /// number.
    pub fn record(&mut self, timestamp_ms: u32, raw_status: u16, status: u16, response_ies: &[u8]) -> (sequence: u32)
        requires
            old(self).wf(),
            response_ies@.len() <= u32::MAX,
        ensures
            final(self).wf(),
            sequence == old(self).next_sequence(),
            final(self).next_sequence() == vstd::wrapping::u32_specs::wrapping_add(sequence, 1),
            final(self).slots() == old(self).slots().update(
                attempt_slot(sequence),
                AssociationAttemptDiagnostic {
                    sequence,
                    timestamp_ms,
                    raw_status: raw_status as u32,
                    status: status as u32,
                    response_ie_len: response_ies@.len() as u32,
                    comeback_tu: match comeback_from(response_ies@, 0) {
                        Some(c) => c,
                        None => NO_COMEBACK_INTERVAL,
                    },
                },
            ),
    {
        let sequence = self.next_sequence;
        self.next_sequence = sequence.wrapping_add(1);
        let comeback = match association_comeback_interval(response_ies) {
            Some(c) => c,
            None => NO_COMEBACK_INTERVAL,
        };
        let slot = (sequence.wrapping_sub(1) % 8) as usize;
        self.slots.set(slot, AssociationAttemptDiagnostic {
            sequence,
            timestamp_ms,
            raw_status: raw_status as u32,
            status: status as u32,
            response_ie_len: response_ies.len() as u32,
            comeback_tu: comeback,
        });
        sequence
    }

    /// The written entries ordered by sequence number, at most `limit`.
    pub fn association_attempt_diagnostics(&self, limit: usize) -> (v: Vec<AssociationAttemptDiagnostic>)
        requires
            self.wf(),
        ensures
            ({
                let written = written_attempts(self.slots(), ASSOCIATION_ATTEMPT_CAPACITY as int);
                let n = if written.len() < limit { written.len() as int } else { limit as int };
                exists|sorted: Seq<AssociationAttemptDiagnostic>| {
                    &&& sorted_by_sequence(sorted)
                    &&& sorted.to_multiset() == written.to_multiset()
                    &&& v@ == sorted.take(n)
                }
            }),
    {
        let mut written: Vec<AssociationAttemptDiagnostic> = Vec::new();
        let mut i: usize = 0;
        while i < self.slots.len()
            invariant
                i <= self.slots@.len(),
                written@ == written_attempts(self.slots(), i as int),
            decreases self.slots@.len() - i,
        {
            if self.slots[i].sequence != 0 {
                written.push(self.slots[i]);
            }
            i += 1;
        }
        let sorted = sort_by_sequence(&written);
        let n = if sorted.len() < limit { sorted.len() } else { limit };
        let mut v: Vec<AssociationAttemptDiagnostic> = Vec::new();
        let mut k: usize = 0;
        while k < n
            invariant
                k <= n <= sorted@.len(),
                v@ == sorted@.take(k as int),
            decreases n - k,
        {
            v.push(sorted[k]);
            k += 1;
            assert(v@ =~= sorted@.take(k as int));
        }
        proof {
            assert(sorted@.to_multiset() == written@.to_multiset());
            assert(sorted_by_sequence(sorted@));
        }
        v
    }
}

/// Insertion sort by sequence number.
fn sort_by_sequence(src: &Vec<AssociationAttemptDiagnostic>) -> (v: Vec<AssociationAttemptDiagnostic>)
    ensures
        sorted_by_sequence(v@),
        v@.to_multiset() == src@.to_multiset(),
        v@.len() == src@.len(),
{
    let mut v: Vec<AssociationAttemptDiagnostic> = Vec::new();
    let mut k: usize = 0;
    assert(v@ =~= src@.take(0));
    while k < src.len()
        invariant
            k <= src@.len(),
            sorted_by_sequence(v@),
            v@.to_multiset() == src@.take(k as int).to_multiset(),
            v@.len() == k,
        decreases src@.len() - k,
    {
        let e = src[k];
        let mut p: usize = 0;
        while p < v.len() && v[p].sequence <= e.sequence
            invariant
                p <= v@.len(),
                forall|j: int| 0 <= j < p ==> v@[j].sequence <= e.sequence,
            decreases v@.len() - p,
        {
            p += 1;
        }
        let ghost before = v@;
        v.insert(p, e);
        proof {
            assert(src@.take(k as int + 1) =~= src@.take(k as int).push(e));
            assert(v@ == before.insert(p as int, e));
            vstd::seq_lib::to_multiset_insert(before, p as int, e);
            vstd::seq_lib::to_multiset_build(src@.take(k as int), e);
            assert forall|i: int, j: int| 0 <= i < j < v@.len() implies v@[i].sequence <= v@[j].sequence by {
                if j < p {
                } else if j == p {
                    assert(v@[i] == before[i]);
                } else if i < p {
                    assert(v@[i] == before[i]);
                    assert(v@[j] == before[j - 1]);
                } else if i == p {
                    assert(v@[j] == before[j - 1]);
                    assert(before[p as int].sequence > e.sequence || p == before.len());
                    if p < before.len() {
                        assert(before[p as int].sequence <= before[j - 1].sequence || j - 1 == p);
                    }
                } else {
                    assert(v@[i] == before[i - 1]);
                    assert(v@[j] == before[j - 1]);
                }
            }
        }
        k += 1;
    }
    assert(src@.take(src@.len() as int) =~= src@);
    v
}

/// Observations of authentication frames in one direction.
#[derive(Clone, Copy, Debug, PartialEq, Eq, Structural)]
pub struct AuthenticationDiagnostic {
    pub count: u32,
    pub frequency: u32,
    pub length: u32,
    pub algorithm: u32,
    pub transaction: u32,
    pub status: u32,
}

impl AuthenticationDiagnostic {
    /// Nothing observed.
    pub fn new() -> (d: Self)
        ensures
            d == (AuthenticationDiagnostic { count: 0, frequency: 0, length: 0, algorithm: 0, transaction: 0, status: 0 }),
    {
        AuthenticationDiagnostic { count: 0, frequency: 0, length: 0, algorithm: 0, transaction: 0, status: 0 }
    }

    /// Record a management frame on `frequency_mhz` if it is an
    /// authentication frame; returns whether it was.
    pub fn observe(&mut self, frame: &[u8], frequency_mhz: u32) -> (seen: bool)
        requires
            frame@.len() <= u32::MAX,
        ensures
            seen == (frame@.len() >= 30 && frame@[0] == 0xb0),
            !seen ==> *final(self) == *old(self),
            seen ==> *final(self) == (AuthenticationDiagnostic {
                count: vstd::wrapping::u32_specs::wrapping_add(old(self).count, 1),
                frequency: frequency_mhz,
                length: frame@.len() as u32,
                algorithm: le16(frame@[24], frame@[25]) as u32,
                transaction: le16(frame@[26], frame@[27]) as u32,
                status: le16(frame@[28], frame@[29]) as u32,
            }),
    {
        let header: AuthenticationHeader = match authentication_header(frame) {
            Some(h) => h,
            None => return false,
        };
        self.frequency = frequency_mhz;
        self.length = frame.len() as u32;
        self.algorithm = header.algorithm as u32;
        self.transaction = header.transaction as u32;
        self.status = header.status as u32;
        self.count = self.count.wrapping_add(1);
        true
    }

    /// Count, frequency, length, algorithm, transaction, status.
    pub fn snapshot(&self) -> (s: [u32; 6])
        ensures
            s@ == seq![self.count, self.frequency, self.length, self.algorithm, self.transaction, self.status],
    {
        let s = [self.count, self.frequency, self.length, self.algorithm, self.transaction, self.status];
        assert(s@ =~= seq![self.count, self.frequency, self.length, self.algorithm, self.transaction, self.status]);
        s
    }
}

/// The last time a step of the authentication progressed: its global event
/// number and time stamp.
#[derive(Clone, Copy, Debug, PartialEq, Eq, Structural)]
pub struct AuthenticationProgress {
    pub sequence: u32,
    pub timestamp_ms: u32,
}

/// The shared event counter of the progress stamps.
pub struct ProgressClock {
    next: u32,
}

impl ProgressClock {
    /// The number the next stamp gets.
    pub closed spec fn next(&self) -> u32 {
        self.next
    }

    /// Numbering starts at 1.
    pub fn new() -> (c: Self)
        ensures
            c.next() == 1,
    {
        ProgressClock { next: 1 }
    }

    /// Stamp `progress` with the next number and `timestamp_ms`.
    pub fn observe(&mut self, progress: &mut AuthenticationProgress, timestamp_ms: u32)
        ensures
            *final(progress) == (AuthenticationProgress { sequence: old(self).next(), timestamp_ms }),
            final(self).next() == vstd::wrapping::u32_specs::wrapping_add(old(self).next(), 1),
    {
        let sequence = self.next;
        self.next = self.next.wrapping_add(1);
        progress.sequence = sequence;
        progress.timestamp_ms = timestamp_ms;
    }
}

/// Progress of the five authentication steps, two words each: external
/// authentication started, last TX, last RX, status sent, association event.
pub fn authentication_progress_snapshot(
    started: AuthenticationProgress,
    tx: AuthenticationProgress,
    rx: AuthenticationProgress,
    status: AuthenticationProgress,
    association: AuthenticationProgress,
) -> (s: [u32; 10])
    ensures
        s@ == seq![
            started.sequence, started.timestamp_ms, tx.sequence, tx.timestamp_ms, rx.sequence, rx.timestamp_ms,
            status.sequence, status.timestamp_ms, association.sequence, association.timestamp_ms,
        ],
{
    let s = [
        started.sequence, started.timestamp_ms, tx.sequence, tx.timestamp_ms, rx.sequence, rx.timestamp_ms,
        status.sequence, status.timestamp_ms, association.sequence, association.timestamp_ms,
    ];
    assert(s@ =~= seq![
        started.sequence, started.timestamp_ms, tx.sequence, tx.timestamp_ms, rx.sequence, rx.timestamp_ms,
        status.sequence, status.timestamp_ms, association.sequence, association.timestamp_ms,
    ]);
    s
}

/// The TX then RX authentication observations.
pub fn authentication_diagnostic_snapshot(tx: AuthenticationDiagnostic, rx: AuthenticationDiagnostic) -> (s: [u32; 12])
    ensures
        s@ == seq![
            tx.count, tx.frequency, tx.length, tx.algorithm, tx.transaction, tx.status,
            rx.count, rx.frequency, rx.length, rx.algorithm, rx.transaction, rx.status,
        ],
{
    let s = [
        tx.count, tx.frequency, tx.length, tx.algorithm, tx.transaction, tx.status,
        rx.count, rx.frequency, rx.length, rx.algorithm, rx.transaction, rx.status,
    ];
    assert(s@ =~= seq![
        tx.count, tx.frequency, tx.length, tx.algorithm, tx.transaction, tx.status,
        rx.count, rx.frequency, rx.length, rx.algorithm, rx.transaction, rx.status,
    ]);
    s
}

/// Which port stages were reached (non-zero counters).
#[derive(Clone, Copy, Debug, PartialEq, Eq, Structural)]
pub struct PortStages {
    pub scan_starts: u32,
    pub scan_results: u32,
    pub scan_done: u32,
    pub associate_calls: u32,
    pub associate_events: u32,
    pub mgmt_events: u32,
    pub eapol_events: u32,
    pub key_installs: u32,
    pub associate_retries: u32,
}

/// The port diagnostic word: one bit per stage reached (bits 0 to 7), the
/// event-loop nibble (bits 8 to 11) and the driver nibble (bits 12 to 15);
/// a driver stage 1 reached only after a retry reads 0xf.
pub open spec fn spec_diagnostic_word(stages: PortStages, eloop_flags: u32, driver_word: u32) -> u32 {
    let bit = |c: u32| -> u32 { if c != 0 { 1u32 } else { 0u32 } };
    let eloop = eloop_flags & 0x0f;
    let driver0 = driver_word & 0x0f;
    let driver = if driver0 == 1 && stages.associate_retries != 0 { 0x0fu32 } else { driver0 };
    bit(stages.scan_starts) | (bit(stages.scan_results) << 1u32) | (bit(stages.scan_done) << 2u32) | (bit(
        stages.associate_calls,
    ) << 3u32) | (bit(stages.associate_events) << 4u32) | (bit(stages.mgmt_events) << 5u32) | (bit(
        stages.eapol_events,
    ) << 6u32) | (bit(stages.key_installs) << 7u32) | (eloop << 8u32) | (driver << 12u32)
}

/// [`spec_diagnostic_word`].
pub fn diagnostic_word(stages: PortStages, eloop_flags: u32, driver_word: u32) -> (w: u32)
    ensures
        w == spec_diagnostic_word(stages, eloop_flags, driver_word),
{
    let starts: u32 = if stages.scan_starts != 0 { 1 } else { 0 };
    let results: u32 = if stages.scan_results != 0 { 1 } else { 0 };
    let done: u32 = if stages.scan_done != 0 { 1 } else { 0 };
    let associate: u32 = if stages.associate_calls != 0 { 1 } else { 0 };
    let associate_event: u32 = if stages.associate_events != 0 { 1 } else { 0 };
    let mgmt: u32 = if stages.mgmt_events != 0 { 1 } else { 0 };
    let eapol: u32 = if stages.eapol_events != 0 { 1 } else { 0 };
    let key: u32 = if stages.key_installs != 0 { 1 } else { 0 };
    let eloop = eloop_flags & 0x0f;
    let mut driver = driver_word & 0x0f;
    if driver == 1 && stages.associate_retries != 0 {
        driver = 0x0f;
    }
    starts | (results << 1u32) | (done << 2u32) | (associate << 3u32) | (associate_event << 4u32) | (mgmt << 5u32)
        | (eapol << 6u32) | (key << 7u32) | (eloop << 8u32) | (driver << 12u32)
}

/// The hexadecimal text `0x` and eight digits of a diagnostic value.
pub fn emit_diagnostic_hex(value: u32) -> (text: [u8; 10])
    ensures
        text@ == hex32_spec(value),
{
    hex32(value)
}

/// The hostap SAE password-element method as the vendor value: 1 hunting and
/// pecking, 2 hash-to-element, 3 both; `None` otherwise. The hostap codes are
/// given in that order.
pub fn vendor_sae_pwe(value: u8, hunt_and_peck: u8, hash_to_element: u8, both: u8) -> (r: Option<i32>)
    ensures
        value == hunt_and_peck ==> r == Some(1i32),
        value != hunt_and_peck && value == hash_to_element ==> r == Some(2i32),
        value != hunt_and_peck && value != hash_to_element && value == both ==> r == Some(3i32),
        value != hunt_and_peck && value != hash_to_element && value != both ==> r is None,
{
    if value == hunt_and_peck {
        Some(1)
    } else if value == hash_to_element {
        Some(2)
    } else if value == both {
        Some(3)
    } else {
        None
    }
}

} // verus!
