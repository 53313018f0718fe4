//! Decisions of one supplicant poll by the radio runner: report queue
//! losses first, then feed the scan, link, external-auth and management
//! queues in that order within a work budget, give EAPOL frames their turn
//! (when notified, or during the fallback window after an association), and
//! hand what is left of the budget to the native poll.
use vstd::prelude::*;
use crate::backend::NativeSupplicantError;
use crate::supplicant::wrapping_diff;

verus! {

/// Polls after a successful association during which EAPOL frames are
/// received even without a notification.
pub const EAPOL_FALLBACK_POLL_WINDOW: u16 = 2000;

/// The event queues a poll feeds, in feeding order.
#[derive(Clone, Copy, Debug, PartialEq, Eq, Structural)]
pub enum PollQueue {
    Scan,
    Link,
    ExternalAuth,
    Mgmt,
}

/// The drop counters of the four queues.
#[derive(Clone, Copy, Debug, PartialEq, Eq, Structural)]
pub struct DropCounters {
    pub mgmt: u32,
    pub scan: u32,
    pub link: u32,
    pub external_auth: u32,
}

/// What the runner keeps between polls: the drop counts it has reported
/// and the polls left in the EAPOL fallback window.
#[derive(Clone, Copy, Debug, PartialEq, Eq, Structural)]
pub struct PollState {
    pub seen: DropCounters,
    pub eapol_fallback_remaining: u16,
}

/// One poll in progress: the queue being fed (`None` once all four are
/// empty), the budget left, and whether any work was done.
#[derive(Clone, Copy, Debug, PartialEq, Eq, Structural)]
pub struct PollRound {
    pub queue: Option<PollQueue>,
    pub budget: u32,
    pub work: bool,
}

/// How EAPOL frames are handled in this poll.
#[derive(Clone, Copy, Debug, PartialEq, Eq, Structural)]
pub enum EapolTurn {
    /// Not this poll.
    Skip,
    /// The driver signalled pending frames: receive them.
    Notified,
    /// No signal, but inside the fallback window: receive anyway.
    Fallback,
}

/// The loss count between a drop counter and what was last seen of it.
pub open spec fn drop_delta(dropped: u32, seen: u32) -> u32 {
    wrapping_diff(dropped, seen) as u32
}

/// The first queue (management, scan, link, external auth) whose drop
/// counter moved: the seen counts with that one brought up to date, and the
/// overflow error carrying how many were lost; `None` when none moved.
pub open spec fn spec_check_drops(seen: DropCounters, dropped: DropCounters) -> (DropCounters, Option<NativeSupplicantError>) {
    if dropped.mgmt != seen.mgmt {
        (
            DropCounters { mgmt: dropped.mgmt, ..seen },
            Some(NativeSupplicantError::MgmtQueueOverflow(drop_delta(dropped.mgmt, seen.mgmt))),
        )
    } else if dropped.scan != seen.scan {
        (
            DropCounters { scan: dropped.scan, ..seen },
            Some(NativeSupplicantError::ScanQueueOverflow(drop_delta(dropped.scan, seen.scan))),
        )
    } else if dropped.link != seen.link {
        (
            DropCounters { link: dropped.link, ..seen },
            Some(NativeSupplicantError::LinkQueueOverflow(drop_delta(dropped.link, seen.link))),
        )
    } else if dropped.external_auth != seen.external_auth {
        (
            DropCounters { external_auth: dropped.external_auth, ..seen },
            Some(
                NativeSupplicantError::ExternalAuthQueueOverflow(
                    drop_delta(dropped.external_auth, seen.external_auth),
                ),
            ),
        )
    } else {
        (seen, None)
    }
}

/// The queue fed after `queue` is found empty.
pub open spec fn queue_after(queue: PollQueue) -> Option<PollQueue> {
    match queue {
        PollQueue::Scan => Some(PollQueue::Link),
        PollQueue::Link => Some(PollQueue::ExternalAuth),
        PollQueue::ExternalAuth => Some(PollQueue::Mgmt),
        PollQueue::Mgmt => None,
    }
}

/// The failure of feeding an entry of `queue` that the native context
/// refused with `status`.
pub open spec fn spec_feed_error(queue: PollQueue, status: i32) -> NativeSupplicantError {
    match queue {
        PollQueue::Scan => NativeSupplicantError::FeedScanFailed(status),
        PollQueue::Link => NativeSupplicantError::FeedLinkFailed(status),
        PollQueue::ExternalAuth => NativeSupplicantError::FeedExternalAuthFailed(status),
        PollQueue::Mgmt => NativeSupplicantError::FeedMgmtFailed(status),
    }
}

/// [`spec_feed_error`].
pub fn feed_error(queue: PollQueue, status: i32) -> (e: NativeSupplicantError)
    ensures
        e == spec_feed_error(queue, status),
{
    match queue {
        PollQueue::Scan => NativeSupplicantError::FeedScanFailed(status),
        PollQueue::Link => NativeSupplicantError::FeedLinkFailed(status),
        PollQueue::ExternalAuth => NativeSupplicantError::FeedExternalAuthFailed(status),
        PollQueue::Mgmt => NativeSupplicantError::FeedMgmtFailed(status),
    }
}

impl PollState {
    /// Nothing reported yet, no fallback window.
    pub fn new() -> (s: Self)
        ensures
            s == (PollState {
                seen: DropCounters { mgmt: 0, scan: 0, link: 0, external_auth: 0 },
                eapol_fallback_remaining: 0,
            }),
    {
        PollState { seen: DropCounters { mgmt: 0, scan: 0, link: 0, external_auth: 0 }, eapol_fallback_remaining: 0 }
    }

    /// Start a poll with `work_budget` units: a queue that lost entries
    /// since the last look ends it with an overflow error (see
    /// [`spec_check_drops`]); otherwise the round starts at the scan queue
    /// with one unit kept back for the native poll.
    pub fn begin(&mut self, work_budget: u32, dropped: DropCounters) -> (r: Result<PollRound, NativeSupplicantError>)
        requires
            work_budget >= 1,
        ensures
            final(self).seen == spec_check_drops(old(self).seen, dropped).0,
            final(self).eapol_fallback_remaining == old(self).eapol_fallback_remaining,
            spec_check_drops(old(self).seen, dropped).1 matches Some(e) ==> r == Err::<PollRound, NativeSupplicantError>(e),
            spec_check_drops(old(self).seen, dropped).1 is None ==> r == Ok::<PollRound, NativeSupplicantError>(
                PollRound { queue: Some(PollQueue::Scan), budget: (work_budget - 1) as u32, work: false },
            ),
    {
        if dropped.mgmt != self.seen.mgmt {
            let delta = dropped.mgmt.wrapping_sub(self.seen.mgmt);
            self.seen.mgmt = dropped.mgmt;
            return Err(NativeSupplicantError::MgmtQueueOverflow(delta));
        }
        if dropped.scan != self.seen.scan {
            let delta = dropped.scan.wrapping_sub(self.seen.scan);
            self.seen.scan = dropped.scan;
            return Err(NativeSupplicantError::ScanQueueOverflow(delta));
        }
        if dropped.link != self.seen.link {
            let delta = dropped.link.wrapping_sub(self.seen.link);
            self.seen.link = dropped.link;
            return Err(NativeSupplicantError::LinkQueueOverflow(delta));
        }
        if dropped.external_auth != self.seen.external_auth {
            let delta = dropped.external_auth.wrapping_sub(self.seen.external_auth);
            self.seen.external_auth = dropped.external_auth;
            return Err(NativeSupplicantError::ExternalAuthQueueOverflow(delta));
        }
        Ok(PollRound { queue: Some(PollQueue::Scan), budget: work_budget - 1, work: false })
    }

    /// A link event was fed with `fed`: an association result with vendor
    /// status 0 that the native context took opens the EAPOL fallback window.
    pub fn link_fed(&mut self, associate: bool, fed: i32, status: u16)
        ensures
            associate && fed == 0 && status == 0 ==> final(self).eapol_fallback_remaining == EAPOL_FALLBACK_POLL_WINDOW,
            !(associate && fed == 0 && status == 0) ==> final(self).eapol_fallback_remaining
                == old(self).eapol_fallback_remaining,
            final(self).seen == old(self).seen,
    {
        if associate && fed == 0 && status == 0 {
            self.eapol_fallback_remaining = EAPOL_FALLBACK_POLL_WINDOW;
        }
    }

    /// The EAPOL turn after the queues, given whether the driver signalled
    /// pending frames: with budget left, a signal means receive; without one,
    /// a poll inside the fallback window receives anyway and uses up one
    /// poll of the window.
    pub fn eapol_turn(&mut self, round: &PollRound, notified: bool) -> (t: EapolTurn)
        ensures
            final(self).seen == old(self).seen,
            round.budget != 0 && notified ==> t == EapolTurn::Notified
                && final(self).eapol_fallback_remaining == old(self).eapol_fallback_remaining,
            round.budget != 0 && !notified && old(self).eapol_fallback_remaining != 0 ==> t == EapolTurn::Fallback
                && final(self).eapol_fallback_remaining == old(self).eapol_fallback_remaining - 1,
            (round.budget == 0 || (!notified && old(self).eapol_fallback_remaining == 0)) ==> t == EapolTurn::Skip
                && final(self).eapol_fallback_remaining == old(self).eapol_fallback_remaining,
    {
        let fallback = !notified && self.eapol_fallback_remaining != 0;
        if round.budget != 0 && (notified || fallback) {
            if fallback {
                self.eapol_fallback_remaining = self.eapol_fallback_remaining - 1;
                EapolTurn::Fallback
            } else {
                EapolTurn::Notified
            }
        } else {
            EapolTurn::Skip
        }
    }
}

impl PollRound {
    /// The queue to take the oldest entry from next: none once the budget
    /// is spent or all four queues were empty.
    pub fn next_queue(&self) -> (q: Option<PollQueue>)
        ensures
            q == (if self.budget == 0 { None } else { self.queue }),
    {
        if self.budget == 0 {
            None
        } else {
            self.queue
        }
    }

    /// One entry (a queue entry or an EAPOL frame) was fed: it costs one
    /// unit of the budget and counts as work.
    pub fn fed(&mut self)
        requires
            old(self).budget > 0,
        ensures
            *final(self) == (PollRound { budget: (old(self).budget - 1) as u32, work: true, ..*old(self) }),
    {
        self.budget = self.budget - 1;
        self.work = true;
    }

    /// The current queue was empty: move on to the next one.
    pub fn queue_empty(&mut self)
        ensures
            *final(self) == (PollRound {
                queue: match old(self).queue {
                    Some(q) => queue_after(q),
                    None => None,
                },
                ..*old(self)
            }),
    {
        self.queue = match self.queue {
            Some(PollQueue::Scan) => Some(PollQueue::Link),
            Some(PollQueue::Link) => Some(PollQueue::ExternalAuth),
            Some(PollQueue::ExternalAuth) => Some(PollQueue::Mgmt),
            Some(PollQueue::Mgmt) => None,
            None => None,
        };
    }

    /// Whether another EAPOL frame may be received.
    pub fn can_drain(&self) -> (r: bool)
        ensures
            r == (self.budget != 0),
    {
        self.budget != 0
    }

    /// Whether an EAPOL drain stopped for want of budget, so frames may
    /// still be waiting (the pending signal is then raised again).
    pub fn eapol_left_pending(&self) -> (r: bool)
        ensures
            r == (self.budget == 0),
    {
        self.budget == 0
    }

    /// The budget handed to the native poll: what is left, at least 1.
    pub fn native_budget(&self) -> (b: u32)
        ensures
            b == (if self.budget == 0 { 1 } else { self.budget }),
            b >= 1,
    {
        if self.budget == 0 {
            1
        } else {
            self.budget
        }
    }

    /// The work-pending flag of the poll result: 1 when this poll did work
    /// or any queue or the EAPOL signal still holds something, else what
    /// the native poll reported.
    pub fn work_pending(&self, native: u8, queued: bool, eapol_pending: bool) -> (p: u8)
        ensures
            p == (if self.work || queued || eapol_pending { 1u8 } else { native }),
    {
        if self.work || queued || eapol_pending {
            1
        } else {
            native
        }
    }
}

/// Empty queues are passed over in feeding order: from the scan queue, four
/// empty queues (scan, link, external auth, management) end the feeding.
pub proof fn lemma_queues_fed_in_order()
    ensures
        queue_after(PollQueue::Scan) == Some(PollQueue::Link),
        queue_after(PollQueue::Link) == Some(PollQueue::ExternalAuth),
        queue_after(PollQueue::ExternalAuth) == Some(PollQueue::Mgmt),
        queue_after(PollQueue::Mgmt) is None,
{
}

/// Every loss is reported once: with the drop counters unchanged, at most
/// four polls report overflows (one queue each), after which the seen
/// counts equal the counters and nothing more is reported; a poll that
/// reports nothing changes no seen count.
pub proof fn lemma_losses_reported_once(seen: DropCounters, dropped: DropCounters)
    ensures
        spec_check_drops(seen, dropped).1 is None ==> spec_check_drops(seen, dropped).0 == seen,
        ({
            let s1 = spec_check_drops(seen, dropped).0;
            let s2 = spec_check_drops(s1, dropped).0;
            let s3 = spec_check_drops(s2, dropped).0;
            let s4 = spec_check_drops(s3, dropped).0;
            &&& s4 == dropped
            &&& spec_check_drops(s4, dropped).1 is None
        }),
{
}

} // verus!
