use ws63_rf::supp_diag::{
    authentication_diagnostic_snapshot, authentication_progress_snapshot, diagnostic_word,
    emit_diagnostic_hex, AssociationAttempts, AuthenticationDiagnostic, AuthenticationProgress,
    PortStages, ProgressClock, ASSOCIATION_ATTEMPT_CAPACITY, NO_COMEBACK_INTERVAL,
};

#[test]
fn association_attempts_are_listed_by_sequence() {
    let mut attempts = AssociationAttempts::new();
    assert!(attempts.association_attempt_diagnostics(8).is_empty());
    let comeback = [56u8, 5, 3, 0x10, 0, 0, 0];
    assert_eq!(attempts.record(100, 8_030, 30, &comeback), 1);
    assert_eq!(attempts.record(200, 0, 0, &[]), 2);
    let v = attempts.association_attempt_diagnostics(8);
    assert_eq!(v.len(), 2);
    assert_eq!((v[0].sequence, v[0].timestamp_ms, v[0].raw_status, v[0].status), (1, 100, 8_030, 30));
    assert_eq!(v[0].response_ie_len, comeback.len() as u32);
    assert_eq!(v[0].comeback_tu, 0x10);
    assert_eq!(v[1].comeback_tu, NO_COMEBACK_INTERVAL);
}

#[test]
fn association_attempts_keep_the_newest_when_rotating() {
    let mut attempts = AssociationAttempts::new();
    for n in 0..(ASSOCIATION_ATTEMPT_CAPACITY as u32 + 3) {
        attempts.record(n, 0, 0, &[]);
    }
    let v = attempts.association_attempt_diagnostics(64);
    assert_eq!(v.len(), ASSOCIATION_ATTEMPT_CAPACITY);
    let sequences: Vec<u32> = v.iter().map(|a| a.sequence).collect();
    let expected: Vec<u32> = (4..=(ASSOCIATION_ATTEMPT_CAPACITY as u32 + 3)).collect();
    assert_eq!(sequences, expected);
    assert_eq!(attempts.association_attempt_diagnostics(2).len(), 2);
    assert_eq!(attempts.association_attempt_diagnostics(2)[0].sequence, 4);
}

#[test]
fn authentication_frames_are_observed() {
    let mut d = AuthenticationDiagnostic::new();
    let mut frame = [0u8; 40];
    assert!(!d.observe(&frame, 2412));
    frame[0] = 0xb0;
    frame[24] = 3;
    frame[26] = 2;
    frame[28] = 1;
    assert!(d.observe(&frame, 2412));
    assert_eq!(d.snapshot(), [1, 2412, 40, 3, 2, 1]);
    let rx = AuthenticationDiagnostic::new();
    let s = authentication_diagnostic_snapshot(d, rx);
    assert_eq!(&s[..6], &[1, 2412, 40, 3, 2, 1]);
    assert_eq!(&s[6..], &[0; 6]);
}

#[test]
fn progress_marks_share_one_clock() {
    let mut clock = ProgressClock::new();
    let mut started = AuthenticationProgress { sequence: 0, timestamp_ms: 0 };
    let mut tx = started;
    clock.observe(&mut started, 10);
    clock.observe(&mut tx, 25);
    let none = AuthenticationProgress { sequence: 0, timestamp_ms: 0 };
    assert_eq!(
        authentication_progress_snapshot(started, tx, none, none, none),
        [1, 10, 2, 25, 0, 0, 0, 0, 0, 0]
    );
}

#[test]
fn port_diagnostic_word_packs_stage_bits_and_nibbles() {
    let none = PortStages {
        scan_starts: 0,
        scan_results: 0,
        scan_done: 0,
        associate_calls: 0,
        associate_events: 0,
        mgmt_events: 0,
        eapol_events: 0,
        key_installs: 0,
        associate_retries: 0,
    };
    assert_eq!(diagnostic_word(none, 0, 0), 0);
    let some = PortStages { scan_starts: 3, scan_done: 1, key_installs: 9, ..none };
    assert_eq!(diagnostic_word(some, 0x35, 0x12), 0x2585);
    let retried = PortStages { associate_retries: 1, ..none };
    assert_eq!(diagnostic_word(retried, 0, 1), 0xf000);
    assert_eq!(diagnostic_word(none, 0, 1), 0x1000);
    assert_eq!(&emit_diagnostic_hex(0x00ab_12cd), b"0x00ab12cd");
}
