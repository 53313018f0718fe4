use ws63_rf::crypto_stats::{
    elapsed_ms, self_test_mismatch, CryptoStatistics, CurveOperation, FieldOperation, OpStats,
};

#[test]
fn elapsed_time_wraps_and_saturates() {
    assert_eq!(elapsed_ms(100, 150), 50);
    assert_eq!(elapsed_ms(u64::MAX, 4), 5);
    assert_eq!(elapsed_ms(0, u64::MAX), u32::MAX);
}

#[test]
fn op_stats_track_totals_maximum_and_failures() {
    let mut s = OpStats::new();
    s.request();
    s.finish(30, false);
    s.request();
    s.finish(10, true);
    assert_eq!(s, OpStats { requests: 2, failures: 1, total_ms: 40, max_ms: 30 });
    s.finish(u32::MAX, false);
    assert_eq!(s.total_ms, 39);
    assert_eq!(s.max_ms, u32::MAX);
}

#[test]
fn entropy_requests_count_bytes_only_on_success() {
    let mut stats = CryptoStatistics::new();
    stats.record_entropy(0, true);
    stats.record_entropy(32, true);
    stats.record_entropy(16, false);
    assert_eq!(stats.hardware_entropy_diagnostic_snapshot(), [0, 2, 32, 1]);
    stats.installed = true;
    assert_eq!(stats.hardware_entropy_diagnostic_snapshot()[0], 1);
}

#[test]
fn field_and_curve_operations_are_broken_down() {
    let mut stats = CryptoStatistics::new();
    stats.record_field(FieldOperation::Square, 4, false);
    stats.record_field(FieldOperation::Pow, 9, true);
    assert_eq!(stats.hardware_p256_field_diagnostic_snapshot(), [2, 1, 13, 9, 0, 1, 1, 0, 0, 1]);
    stats.record_curve(CurveOperation::Invert, 2, true);
    assert_eq!(stats.hardware_p256_curve_diagnostic_snapshot(), [1, 1, 2, 2, 1, 0, 0, 1, 0, 0]);
    stats.record_point_add(7, false);
    assert_eq!(stats.hardware_p256_diagnostic_snapshot(), [1, 0, 7, 7, 1, 0, 7, 7]);
}

#[test]
fn other_snapshots_read_their_counters() {
    let mut stats = CryptoStatistics::new();
    stats.pbkdf2.request();
    stats.pbkdf2.finish(100, false);
    assert_eq!(stats.hardware_pbkdf2_diagnostic_snapshot(), [0, 1, 0, 100, 100]);
    stats.hash.request();
    stats.hash_recovery_tests = 2;
    assert_eq!(stats.hardware_hash_diagnostic_snapshot(), [1, 0, 0, 0, 0, 0, 0, 0, 2, 0]);
    stats.cipher_recovery_failures = 3;
    assert_eq!(stats.hardware_cipher_diagnostic_snapshot(), [0, 0, 0, 0, 0, 3]);
    stats.contention_tests = 1;
    assert_eq!(stats.hardware_crypto_contention_diagnostic_snapshot(), [1, 0, 0, 0, 0]);
}

#[test]
fn self_tests_compare_whole_outputs() {
    assert_eq!(self_test_mismatch(b"abc", b"abc", 7), Ok(()));
    assert_eq!(self_test_mismatch(b"abc", b"abd", 7), Err(7));
    assert_eq!(self_test_mismatch(b"abc", b"ab", 9), Err(9));
}
