use ws63_rf::backend::NativeSupplicantError;
use ws63_rf::supp_assoc::{
    associate_next, associate_request, AssociateAction, AssociateSpec, AssociateState,
    MAX_ASSOCIATION_IE_LEN,
};
use ws63_rf::supp_poll::{
    feed_error, DropCounters, EapolTurn, PollQueue, PollRound, PollState,
    EAPOL_FALLBACK_POLL_WINDOW,
};

fn sae_request() -> AssociateSpec {
    AssociateSpec {
        abi_matches: true,
        ssid_len: 4,
        ssid_capacity: 32,
        bssid_present: 1,
        pmf: 2,
        sae_pwe: 1,
        auth_type: 3,
        privacy: 1,
        frequency_mhz: 2437,
        wpa_versions: 2,
        pairwise_suite: 0x000f_ac04,
        group_suite: 0x000f_ac04,
        key_mgmt_suite: 0x000f_ac08,
        association_ies_len: 20,
        association_ies_present: true,
    }
}

#[test]
fn accepted_association_becomes_the_vendor_request() {
    let request = associate_request(&sae_request()).unwrap();
    assert!(request.uses_bssid);
    assert_eq!(request.auth_type, 3);
    assert_eq!(request.pmf, 2);
    assert_eq!(request.frequency_mhz, 2437);
    assert_eq!(request.ssid_len, 4);
    assert_eq!(request.ies_len, 20);
    assert_eq!(request.key_len, 0);
    assert_eq!(request.auto_connect, 0);
    assert_eq!(request.crypto.sae_pwe, 2);
    assert_eq!(request.crypto.pairwise, [0x000f_ac04, 0, 0, 0, 0]);
    assert_eq!(request.crypto.akm, [0x000f_ac08, 0]);
    assert_eq!(request.crypto.num_pairwise, 1);
    assert_eq!(request.crypto.num_akm, 1);
    assert_eq!(request.crypto.cipher_group, 0x000f_ac04);
}

#[test]
fn association_requests_outside_the_driver_contract_are_refused() {
    let base = sae_request();
    let refused = [
        AssociateSpec { abi_matches: false, ..base },
        AssociateSpec { ssid_len: 0, ..base },
        AssociateSpec { ssid_len: 33, ..base },
        AssociateSpec { bssid_present: 2, ..base },
        AssociateSpec { pmf: 3, ..base },
        AssociateSpec { sae_pwe: 3, ..base },
        AssociateSpec { auth_type: 1, ..base },
        AssociateSpec { frequency_mhz: 0, ..base },
        AssociateSpec { pairwise_suite: 0, ..base },
        AssociateSpec { group_suite: 0, ..base },
        AssociateSpec { key_mgmt_suite: 0, ..base },
        AssociateSpec { association_ies_len: MAX_ASSOCIATION_IE_LEN + 1, ..base },
        AssociateSpec { association_ies_present: false, ..base },
    ];
    for spec in refused {
        assert!(associate_request(&spec).is_none());
    }
    let open = AssociateSpec { auth_type: 0, association_ies_len: 0, association_ies_present: false, sae_pwe: 0, ..base };
    let request = associate_request(&open).unwrap();
    assert!(!request.uses_ies);
    assert_eq!(request.crypto.sae_pwe, 1);
}

#[test]
fn failed_association_disconnects_then_retries_once() {
    assert_eq!(associate_next(AssociateState::First, 0), (AssociateState::Done, AssociateAction::Finish(0)));
    let (state, action) = associate_next(AssociateState::First, -7);
    assert_eq!(action, AssociateAction::Disconnect);
    let (retry, action) = associate_next(state, 0);
    assert_eq!(action, AssociateAction::Associate);
    assert_eq!(associate_next(retry, -9).1, AssociateAction::Finish(-9));
    assert_eq!(associate_next(retry, 0).1, AssociateAction::Finish(0));
    assert_eq!(associate_next(state, -3).1, AssociateAction::Finish(-7));
}

fn counters(mgmt: u32, scan: u32, link: u32, external_auth: u32) -> DropCounters {
    DropCounters { mgmt, scan, link, external_auth }
}

#[test]
fn poll_reports_queue_losses_first_in_order() {
    let mut state = PollState::new();
    assert_eq!(state.begin(8, counters(0, 2, 1, 0)), Err(NativeSupplicantError::ScanQueueOverflow(2)));
    assert_eq!(state.begin(8, counters(0, 2, 1, 0)), Err(NativeSupplicantError::LinkQueueOverflow(1)));
    let round = state.begin(8, counters(0, 2, 1, 0)).unwrap();
    assert_eq!(round, PollRound { queue: Some(PollQueue::Scan), budget: 7, work: false });
    assert_eq!(state.begin(8, counters(3, 2, 1, 0)), Err(NativeSupplicantError::MgmtQueueOverflow(3)));
    state.seen.external_auth = u32::MAX;
    assert_eq!(state.begin(8, counters(3, 2, 1, 1)), Err(NativeSupplicantError::ExternalAuthQueueOverflow(2)));
}

#[test]
fn poll_feeds_queues_in_order_within_the_budget() {
    let mut state = PollState::new();
    let mut round = state.begin(3, counters(0, 0, 0, 0)).unwrap();
    assert_eq!(round.next_queue(), Some(PollQueue::Scan));
    round.fed();
    round.queue_empty();
    assert_eq!(round.next_queue(), Some(PollQueue::Link));
    round.fed();
    assert_eq!(round.next_queue(), None);
    assert!(round.work);
    assert!(round.eapol_left_pending());
    assert!(!round.can_drain());
    assert_eq!(round.native_budget(), 1);
    assert_eq!(state.eapol_turn(&round, true), EapolTurn::Skip);

    let mut idle = state.begin(5, counters(0, 0, 0, 0)).unwrap();
    for _ in 0..4 {
        idle.queue_empty();
    }
    assert_eq!(idle.next_queue(), None);
    assert_eq!(idle.native_budget(), 4);
    assert_eq!(idle.work_pending(0, false, false), 0);
    assert_eq!(idle.work_pending(0, true, false), 1);
    assert_eq!(round.work_pending(0, false, false), 1);
    assert_eq!(feed_error(PollQueue::Mgmt, -2), NativeSupplicantError::FeedMgmtFailed(-2));
}

#[test]
fn eapol_fallback_window_follows_a_successful_association() {
    let mut state = PollState::new();
    let round = state.begin(4, counters(0, 0, 0, 0)).unwrap();
    assert_eq!(state.eapol_turn(&round, false), EapolTurn::Skip);
    state.link_fed(true, 0, 5);
    assert_eq!(state.eapol_fallback_remaining, 0);
    state.link_fed(true, 0, 0);
    assert_eq!(state.eapol_fallback_remaining, EAPOL_FALLBACK_POLL_WINDOW);
    assert_eq!(state.eapol_turn(&round, false), EapolTurn::Fallback);
    assert_eq!(state.eapol_fallback_remaining, EAPOL_FALLBACK_POLL_WINDOW - 1);
    assert_eq!(state.eapol_turn(&round, true), EapolTurn::Notified);
    assert_eq!(state.eapol_fallback_remaining, EAPOL_FALLBACK_POLL_WINDOW - 1);
}
