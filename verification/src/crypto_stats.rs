//! Non-secret health counters of the hardware crypto service: per operation
//! family the requests, failures, total and longest duration, and the
//! diagnostic snapshots built from them.
use vstd::prelude::*;
use vstd::wrapping::u32_specs::wrapping_add;

verus! {

/// Duration of an operation that started at `started` and ended at `now`
/// (milliseconds, wrapping clock), saturated to 32 bits.
pub open spec fn spec_elapsed_ms(started: u64, now: u64) -> u32 {
    let d = vstd::wrapping::u64_specs::wrapping_sub(now, started);
    if d > u32::MAX { u32::MAX } else { d as u32 }
}

/// [`spec_elapsed_ms`].
pub fn elapsed_ms(started: u64, now: u64) -> (e: u32)
    ensures
        e == spec_elapsed_ms(started, now),
{
    let d = now.wrapping_sub(started);
    if d > u32::MAX as u64 {
        u32::MAX
    } else {
        d as u32
    }
}

/// Counters of one family of timed operations.
#[derive(Clone, Copy, Debug, PartialEq, Eq, Structural)]
pub struct OpStats {
    pub requests: u32,
    pub failures: u32,
    pub total_ms: u32,
    pub max_ms: u32,
}

/// The larger of two durations.
pub open spec fn max_u32(a: u32, b: u32) -> u32 {
    if a < b { b } else { a }
}

impl OpStats {
    /// All zero.
    pub fn new() -> (s: Self)
        ensures
            s == (OpStats { requests: 0, failures: 0, total_ms: 0, max_ms: 0 }),
    {
        OpStats { requests: 0, failures: 0, total_ms: 0, max_ms: 0 }
    }

    /// Count a request.
    pub fn request(&mut self)
        ensures
            *final(self) == (OpStats { requests: wrapping_add(old(self).requests, 1), ..*old(self) }),
    {
        self.requests = self.requests.wrapping_add(1);
    }

    /// Account for a finished operation: its duration, and a failure.
    pub fn finish(&mut self, elapsed: u32, failed: bool)
        ensures
            final(self).requests == old(self).requests,
            final(self).total_ms == wrapping_add(old(self).total_ms, elapsed),
            final(self).max_ms == max_u32(old(self).max_ms, elapsed),
            final(self).failures == (if failed { wrapping_add(old(self).failures, 1) } else { old(self).failures }),
    {
        self.total_ms = self.total_ms.wrapping_add(elapsed);
        if self.max_ms < elapsed {
            self.max_ms = elapsed;
        }
        if failed {
            self.failures = self.failures.wrapping_add(1);
        }
    }
}

/// A fixed-field P-256 operation.
#[derive(Clone, Copy, Debug, PartialEq, Eq, Structural)]
pub enum FieldOperation {
    Multiply,
    Square,
    Pow,
}

/// A P-256 curve composition.
#[derive(Clone, Copy, Debug, PartialEq, Eq, Structural)]
pub enum CurveOperation {
    Invert,
    Validate,
    YSquared,
}

/// Requests and failures of each of three sub-operations.
#[derive(Clone, Copy, Debug)]
pub struct Breakdown {
    pub requests: [u32; 3],
    pub failures: [u32; 3],
}

/// All counters of the crypto service.
#[derive(Clone, Copy, Debug)]
pub struct CryptoStatistics {
    pub installed: bool,
    pub entropy_requests: u32,
    pub entropy_bytes: u32,
    pub entropy_failures: u32,
    pub pbkdf2: OpStats,
    pub hash: OpStats,
    pub mac: OpStats,
    pub hash_recovery_tests: u32,
    pub hash_recovery_failures: u32,
    pub cipher: OpStats,
    pub cipher_recovery_tests: u32,
    pub cipher_recovery_failures: u32,
    pub p256: OpStats,
    pub p256_add: OpStats,
    pub field: OpStats,
    pub field_ops: Breakdown,
    pub curve: OpStats,
    pub curve_ops: Breakdown,
    pub contention_tests: u32,
    pub contention_failures: u32,
    pub contention_observed: u32,
    pub contention_holder_completions: u32,
    pub contention_waiter_completions: u32,
}

/// Index of a field operation in the breakdown.
pub open spec fn field_index(op: FieldOperation) -> int {
    match op {
        FieldOperation::Multiply => 0,
        FieldOperation::Square => 1,
        FieldOperation::Pow => 2,
    }
}

/// Index of a curve operation in the breakdown.
pub open spec fn curve_index(op: CurveOperation) -> int {
    match op {
        CurveOperation::Invert => 0,
        CurveOperation::Validate => 1,
        CurveOperation::YSquared => 2,
    }
}

impl CryptoStatistics {
    /// Nothing counted, service not installed.
    pub fn new() -> (s: Self)
        ensures
            !s.installed,
            s.entropy_requests == 0 && s.entropy_bytes == 0 && s.entropy_failures == 0,
            s.pbkdf2 == (OpStats { requests: 0, failures: 0, total_ms: 0, max_ms: 0 }),
            s.hash == s.pbkdf2 && s.mac == s.pbkdf2 && s.cipher == s.pbkdf2,
            s.p256 == s.pbkdf2 && s.p256_add == s.pbkdf2 && s.field == s.pbkdf2 && s.curve == s.pbkdf2,
            s.field_ops.requests@ == seq![0u32, 0u32, 0u32] && s.field_ops.failures@ == seq![0u32, 0u32, 0u32],
            s.curve_ops.requests@ == seq![0u32, 0u32, 0u32] && s.curve_ops.failures@ == seq![0u32, 0u32, 0u32],
    {
        let z = OpStats::new();
        let s = CryptoStatistics {
            installed: false,
            entropy_requests: 0,
            entropy_bytes: 0,
            entropy_failures: 0,
            pbkdf2: z,
            hash: z,
            mac: z,
            hash_recovery_tests: 0,
            hash_recovery_failures: 0,
            cipher: z,
            cipher_recovery_tests: 0,
            cipher_recovery_failures: 0,
            p256: z,
            p256_add: z,
            field: z,
            field_ops: Breakdown { requests: [0u32, 0u32, 0u32], failures: [0u32, 0u32, 0u32] },
            curve: z,
            curve_ops: Breakdown { requests: [0u32, 0u32, 0u32], failures: [0u32, 0u32, 0u32] },
            contention_tests: 0,
            contention_failures: 0,
            contention_observed: 0,
            contention_holder_completions: 0,
            contention_waiter_completions: 0,
        };
        assert(s.field_ops.requests@ =~= seq![0u32, 0u32, 0u32]);
        assert(s.field_ops.failures@ =~= seq![0u32, 0u32, 0u32]);
        assert(s.curve_ops.requests@ =~= seq![0u32, 0u32, 0u32]);
        assert(s.curve_ops.failures@ =~= seq![0u32, 0u32, 0u32]);
        s
    }

    /// An entropy fill of `len` bytes (non-empty fills only are counted).
    pub fn record_entropy(&mut self, len: usize, ok: bool)
        ensures
            len == 0 ==> final(self).entropy_requests == old(self).entropy_requests
                && final(self).entropy_bytes == old(self).entropy_bytes
                && final(self).entropy_failures == old(self).entropy_failures,
            len != 0 ==> final(self).entropy_requests == wrapping_add(old(self).entropy_requests, 1),
            len != 0 && ok ==> final(self).entropy_bytes == wrapping_add(old(self).entropy_bytes, (len as u32))
                && final(self).entropy_failures == old(self).entropy_failures,
            len != 0 && !ok ==> final(self).entropy_failures == wrapping_add(old(self).entropy_failures, 1)
                && final(self).entropy_bytes == old(self).entropy_bytes,
    {
        if len == 0 {
            return;
        }
        self.entropy_requests = self.entropy_requests.wrapping_add(1);
        if ok {
            self.entropy_bytes = self.entropy_bytes.wrapping_add(len as u32);
        } else {
            self.entropy_failures = self.entropy_failures.wrapping_add(1);
        }
    }

    /// A field operation finished after `elapsed` ms.
    pub fn record_field(&mut self, op: FieldOperation, elapsed: u32, failed: bool)
        ensures
            final(self).field.requests == wrapping_add(old(self).field.requests, 1),
            final(self).field.total_ms == wrapping_add(old(self).field.total_ms, elapsed),
            final(self).field.max_ms == max_u32(old(self).field.max_ms, elapsed),
            final(self).field.failures == (if failed { wrapping_add(old(self).field.failures, 1) } else { old(self).field.failures }),
            final(self).field_ops.requests@ == old(self).field_ops.requests@.update(
                field_index(op),
                wrapping_add(old(self).field_ops.requests@[field_index(op)], 1),
            ),
            failed ==> final(self).field_ops.failures@ == old(self).field_ops.failures@.update(
                field_index(op),
                wrapping_add(old(self).field_ops.failures@[field_index(op)], 1),
            ),
            !failed ==> final(self).field_ops.failures@ == old(self).field_ops.failures@,
    {
        let i: usize = match op {
            FieldOperation::Multiply => 0,
            FieldOperation::Square => 1,
            FieldOperation::Pow => 2,
        };
        self.field.request();
        self.field_ops.requests[i] = self.field_ops.requests[i].wrapping_add(1);
        self.field.finish(elapsed, failed);
        if failed {
            self.field_ops.failures[i] = self.field_ops.failures[i].wrapping_add(1);
        }
    }

    /// A curve composition finished after `elapsed` ms.
    pub fn record_curve(&mut self, op: CurveOperation, elapsed: u32, failed: bool)
        ensures
            final(self).curve.requests == wrapping_add(old(self).curve.requests, 1),
            final(self).curve.total_ms == wrapping_add(old(self).curve.total_ms, elapsed),
            final(self).curve.max_ms == max_u32(old(self).curve.max_ms, elapsed),
            final(self).curve.failures == (if failed { wrapping_add(old(self).curve.failures, 1) } else { old(self).curve.failures }),
            final(self).curve_ops.requests@ == old(self).curve_ops.requests@.update(
                curve_index(op),
                wrapping_add(old(self).curve_ops.requests@[curve_index(op)], 1),
            ),
            failed ==> final(self).curve_ops.failures@ == old(self).curve_ops.failures@.update(
                curve_index(op),
                wrapping_add(old(self).curve_ops.failures@[curve_index(op)], 1),
            ),
            !failed ==> final(self).curve_ops.failures@ == old(self).curve_ops.failures@,
    {
        let i: usize = match op {
            CurveOperation::Invert => 0,
            CurveOperation::Validate => 1,
            CurveOperation::YSquared => 2,
        };
        self.curve.request();
        self.curve_ops.requests[i] = self.curve_ops.requests[i].wrapping_add(1);
        self.curve.finish(elapsed, failed);
        if failed {
            self.curve_ops.failures[i] = self.curve_ops.failures[i].wrapping_add(1);
        }
    }

    /// A point addition finished: it counts both as a point operation and as
    /// an addition.
    pub fn record_point_add(&mut self, elapsed: u32, failed: bool)
        ensures
            final(self).p256.requests == wrapping_add(old(self).p256.requests, 1),
            final(self).p256_add.requests == wrapping_add(old(self).p256_add.requests, 1),
            final(self).p256.total_ms == wrapping_add(old(self).p256.total_ms, elapsed),
            final(self).p256_add.total_ms == wrapping_add(old(self).p256_add.total_ms, elapsed),
            final(self).p256.max_ms == max_u32(old(self).p256.max_ms, elapsed),
            final(self).p256_add.max_ms == max_u32(old(self).p256_add.max_ms, elapsed),
            final(self).p256.failures == (if failed { wrapping_add(old(self).p256.failures, 1) } else { old(self).p256.failures }),
            final(self).p256_add.failures == (if failed { wrapping_add(old(self).p256_add.failures, 1) } else { old(self).p256_add.failures }),
    {
        self.p256.request();
        self.p256_add.request();
        self.p256.finish(elapsed, failed);
        self.p256_add.finish(elapsed, failed);
    }

    /// PBKDF2 counters: installed, requests, failures, total and longest ms.
    pub fn hardware_pbkdf2_diagnostic_snapshot(&self) -> (s: [u32; 5])
        ensures
            s@ == seq![
                if self.installed { 1u32 } else { 0u32 },
                self.pbkdf2.requests,
                self.pbkdf2.failures,
                self.pbkdf2.total_ms,
                self.pbkdf2.max_ms,
            ],
    {
        let s = [
            if self.installed { 1u32 } else { 0u32 },
            self.pbkdf2.requests,
            self.pbkdf2.failures,
            self.pbkdf2.total_ms,
            self.pbkdf2.max_ms,
        ];
        assert(s@ =~= seq![
            if self.installed { 1u32 } else { 0u32 },
            self.pbkdf2.requests,
            self.pbkdf2.failures,
            self.pbkdf2.total_ms,
            self.pbkdf2.max_ms,
        ]);
        s
    }

    /// Entropy counters: installed, requests, bytes, failures.
    pub fn hardware_entropy_diagnostic_snapshot(&self) -> (s: [u32; 4])
        ensures
            s@ == seq![if self.installed { 1u32 } else { 0u32 }, self.entropy_requests, self.entropy_bytes, self.entropy_failures],
    {
        let s = [if self.installed { 1u32 } else { 0u32 }, self.entropy_requests, self.entropy_bytes, self.entropy_failures];
        assert(s@ =~= seq![if self.installed { 1u32 } else { 0u32 }, self.entropy_requests, self.entropy_bytes, self.entropy_failures]);
        s
    }

    /// Hash, MAC and hash-recovery counters.
    pub fn hardware_hash_diagnostic_snapshot(&self) -> (s: [u32; 10])
        ensures
            s@ == seq![
                self.hash.requests, self.hash.failures, self.hash.total_ms, self.hash.max_ms,
                self.mac.requests, self.mac.failures, self.mac.total_ms, self.mac.max_ms,
                self.hash_recovery_tests, self.hash_recovery_failures,
            ],
    {
        let s = [
            self.hash.requests, self.hash.failures, self.hash.total_ms, self.hash.max_ms,
            self.mac.requests, self.mac.failures, self.mac.total_ms, self.mac.max_ms,
            self.hash_recovery_tests, self.hash_recovery_failures,
        ];
        assert(s@ =~= seq![
            self.hash.requests, self.hash.failures, self.hash.total_ms, self.hash.max_ms,
            self.mac.requests, self.mac.failures, self.mac.total_ms, self.mac.max_ms,
            self.hash_recovery_tests, self.hash_recovery_failures,
        ]);
        s
    }

    /// Cipher and cipher-recovery counters.
    pub fn hardware_cipher_diagnostic_snapshot(&self) -> (s: [u32; 6])
        ensures
            s@ == seq![
                self.cipher.requests, self.cipher.failures, self.cipher.total_ms, self.cipher.max_ms,
                self.cipher_recovery_tests, self.cipher_recovery_failures,
            ],
    {
        let s = [
            self.cipher.requests, self.cipher.failures, self.cipher.total_ms, self.cipher.max_ms,
            self.cipher_recovery_tests, self.cipher_recovery_failures,
        ];
        assert(s@ =~= seq![
            self.cipher.requests, self.cipher.failures, self.cipher.total_ms, self.cipher.max_ms,
            self.cipher_recovery_tests, self.cipher_recovery_failures,
        ]);
        s
    }

    /// Point-operation and point-addition counters.
    pub fn hardware_p256_diagnostic_snapshot(&self) -> (s: [u32; 8])
        ensures
            s@ == seq![
                self.p256.requests, self.p256.failures, self.p256.total_ms, self.p256.max_ms,
                self.p256_add.requests, self.p256_add.failures, self.p256_add.total_ms, self.p256_add.max_ms,
            ],
    {
        let s = [
            self.p256.requests, self.p256.failures, self.p256.total_ms, self.p256.max_ms,
            self.p256_add.requests, self.p256_add.failures, self.p256_add.total_ms, self.p256_add.max_ms,
        ];
        assert(s@ =~= seq![
            self.p256.requests, self.p256.failures, self.p256.total_ms, self.p256.max_ms,
            self.p256_add.requests, self.p256_add.failures, self.p256_add.total_ms, self.p256_add.max_ms,
        ]);
        s
    }

    /// Field-operation counters with the per-operation breakdown.
    pub fn hardware_p256_field_diagnostic_snapshot(&self) -> (s: [u32; 10])
        ensures
            s@ == seq![
                self.field.requests, self.field.failures, self.field.total_ms, self.field.max_ms,
                self.field_ops.requests@[0], self.field_ops.requests@[1], self.field_ops.requests@[2],
                self.field_ops.failures@[0], self.field_ops.failures@[1], self.field_ops.failures@[2],
            ],
    {
        let s = [
            self.field.requests, self.field.failures, self.field.total_ms, self.field.max_ms,
            self.field_ops.requests[0], self.field_ops.requests[1], self.field_ops.requests[2],
            self.field_ops.failures[0], self.field_ops.failures[1], self.field_ops.failures[2],
        ];
        assert(s@ =~= seq![
            self.field.requests, self.field.failures, self.field.total_ms, self.field.max_ms,
            self.field_ops.requests@[0], self.field_ops.requests@[1], self.field_ops.requests@[2],
            self.field_ops.failures@[0], self.field_ops.failures@[1], self.field_ops.failures@[2],
        ]);
        s
    }

    /// Curve-composition counters with the per-operation breakdown.
    pub fn hardware_p256_curve_diagnostic_snapshot(&self) -> (s: [u32; 10])
        ensures
            s@ == seq![
                self.curve.requests, self.curve.failures, self.curve.total_ms, self.curve.max_ms,
                self.curve_ops.requests@[0], self.curve_ops.requests@[1], self.curve_ops.requests@[2],
                self.curve_ops.failures@[0], self.curve_ops.failures@[1], self.curve_ops.failures@[2],
            ],
    {
        let s = [
            self.curve.requests, self.curve.failures, self.curve.total_ms, self.curve.max_ms,
            self.curve_ops.requests[0], self.curve_ops.requests[1], self.curve_ops.requests[2],
            self.curve_ops.failures[0], self.curve_ops.failures[1], self.curve_ops.failures[2],
        ];
        assert(s@ =~= seq![
            self.curve.requests, self.curve.failures, self.curve.total_ms, self.curve.max_ms,
            self.curve_ops.requests@[0], self.curve_ops.requests@[1], self.curve_ops.requests@[2],
            self.curve_ops.failures@[0], self.curve_ops.failures@[1], self.curve_ops.failures@[2],
        ]);
        s
    }

    /// Cross-task contention counters.
    pub fn hardware_crypto_contention_diagnostic_snapshot(&self) -> (s: [u32; 5])
        ensures
            s@ == seq![
                self.contention_tests, self.contention_failures, self.contention_observed,
                self.contention_holder_completions, self.contention_waiter_completions,
            ],
    {
        let s = [
            self.contention_tests, self.contention_failures, self.contention_observed,
            self.contention_holder_completions, self.contention_waiter_completions,
        ];
        assert(s@ =~= seq![
            self.contention_tests, self.contention_failures, self.contention_observed,
            self.contention_holder_completions, self.contention_waiter_completions,
        ]);
        s
    }
}

/// Error code of a failed known-answer check in the crypto self tests.
pub fn self_test_mismatch(expected: &[u8], actual: &[u8], code: u32) -> (r: Result<(), u32>)
    ensures
        expected@ == actual@ ==> r == Ok::<(), u32>(()),
        expected@ != actual@ ==> r == Err::<(), u32>(code),
{
    if expected.len() != actual.len() {
        return Err(code);
    }
    let mut i: usize = 0;
    while i < expected.len()
        invariant
            i <= expected@.len() == actual@.len(),
            forall|j: int| 0 <= j < i ==> expected@[j] == actual@[j],
        decreases expected@.len() - i,
    {
        if expected[i] != actual[i] {
            return Err(code);
        }
        i += 1;
    }
    assert(expected@ =~= actual@);
    Ok(())
}

} // verus!
