//! Decisions of the radio control backend: classifying native supplicant
//! events while connecting or disconnecting, and mapping driver, supplicant
//! and runtime errors to one error class and code.
use vstd::prelude::*;
use crate::wifi::{Error, ScanStatus};

verus! {

/// Native supplicant event: the station is authorized.
pub const NATIVE_EVENT_AUTHORIZED: u8 = 3;
/// Native supplicant event: the station disconnected.
pub const NATIVE_EVENT_DISCONNECTED: u8 = 4;
/// Native supplicant event: the connection attempt failed.
pub const NATIVE_EVENT_FAILED: u8 = 5;

/// What a native event means for a pending connection.
#[derive(Clone, Copy, Debug, PartialEq, Eq, Structural)]
pub enum NativeConnectEvent {
    Progress,
    Authorized,
    Disconnected,
    Failed,
}

/// Classify a native event kind.
pub fn classify_native_connect_event(kind: u8) -> (e: NativeConnectEvent)
    ensures
        kind == NATIVE_EVENT_AUTHORIZED ==> e == NativeConnectEvent::Authorized,
        kind == NATIVE_EVENT_DISCONNECTED ==> e == NativeConnectEvent::Disconnected,
        kind == NATIVE_EVENT_FAILED ==> e == NativeConnectEvent::Failed,
        kind != NATIVE_EVENT_AUTHORIZED && kind != NATIVE_EVENT_DISCONNECTED && kind != NATIVE_EVENT_FAILED
            ==> e == NativeConnectEvent::Progress,
{
    if kind == NATIVE_EVENT_AUTHORIZED {
        NativeConnectEvent::Authorized
    } else if kind == NATIVE_EVENT_DISCONNECTED {
        NativeConnectEvent::Disconnected
    } else if kind == NATIVE_EVENT_FAILED {
        NativeConnectEvent::Failed
    } else {
        NativeConnectEvent::Progress
    }
}

/// Class of a backend error.
#[derive(Clone, Copy, Debug, PartialEq, Eq, Structural)]
pub enum BackendErrorClass {
    Initialize,
    Busy,
    Timeout,
    UnsupportedSecurity,
    Connect,
    Other,
}

/// A backend error: its class and a diagnostic code.
#[derive(Clone, Copy, Debug, PartialEq, Eq, Structural)]
pub struct BackendError {
    pub class: BackendErrorClass,
    pub code: u32,
}

/// The error for an operation before initialization.
pub fn not_initialized() -> (e: BackendError)
    ensures
        e == (BackendError { class: BackendErrorClass::Initialize, code: 0x1000_0003 }),
{
    BackendError { class: BackendErrorClass::Initialize, code: 0x1000_0003 }
}

/// Code of a scan status.
pub fn scan_status_code(status: ScanStatus) -> (code: u32)
    ensures
        code == match status {
            ScanStatus::Success => 0u32,
            ScanStatus::Failed => 1u32,
            ScanStatus::Refused => 2u32,
            ScanStatus::Timeout => 3u32,
            ScanStatus::Unknown(c) => c,
        },
{
    match status {
        ScanStatus::Success => 0,
        ScanStatus::Failed => 1,
        ScanStatus::Refused => 2,
        ScanStatus::Timeout => 3,
        ScanStatus::Unknown(code) => code,
    }
}

/// Failures of the task runtime.
#[derive(Clone, Copy, Debug, PartialEq, Eq, Structural)]
pub enum RuntimeError {
    NotInstalled,
    AlreadyInstalled,
    ResourceExhausted,
    NoTaskSlots,
    InvalidHandle,
    InvalidContext,
    TimedOut,
    Runtime,
    IncompatibleContract,
    IncompatibleExecutionProfile,
}

/// Code of a runtime failure, 1 to 10 in declaration order.
pub fn runtime_code(error: RuntimeError) -> (code: u32)
    ensures
        code == match error {
            RuntimeError::NotInstalled => 1u32,
            RuntimeError::AlreadyInstalled => 2u32,
            RuntimeError::ResourceExhausted => 3u32,
            RuntimeError::NoTaskSlots => 4u32,
            RuntimeError::InvalidHandle => 5u32,
            RuntimeError::InvalidContext => 6u32,
            RuntimeError::TimedOut => 7u32,
            RuntimeError::Runtime => 8u32,
            RuntimeError::IncompatibleContract => 9u32,
            RuntimeError::IncompatibleExecutionProfile => 10u32,
        },
{
    match error {
        RuntimeError::NotInstalled => 1,
        RuntimeError::AlreadyInstalled => 2,
        RuntimeError::ResourceExhausted => 3,
        RuntimeError::NoTaskSlots => 4,
        RuntimeError::InvalidHandle => 5,
        RuntimeError::InvalidContext => 6,
        RuntimeError::TimedOut => 7,
        RuntimeError::Runtime => 8,
        RuntimeError::IncompatibleContract => 9,
        RuntimeError::IncompatibleExecutionProfile => 10,
    }
}

/// The error of a failed sleep inside a backend loop.
pub fn sleep_error(error: RuntimeError) -> (e: BackendError)
    ensures
        e.class == BackendErrorClass::Other,
        e.code == 0x5732_e000u32 | runtime_code_spec(error),
{
    BackendError { class: BackendErrorClass::Other, code: 0x5732_e000u32 | runtime_code(error) }
}

/// [`runtime_code`] as a spec function.
pub open spec fn runtime_code_spec(error: RuntimeError) -> u32 {
    match error {
        RuntimeError::NotInstalled => 1u32,
        RuntimeError::AlreadyInstalled => 2u32,
        RuntimeError::ResourceExhausted => 3u32,
        RuntimeError::NoTaskSlots => 4u32,
        RuntimeError::InvalidHandle => 5u32,
        RuntimeError::InvalidContext => 6u32,
        RuntimeError::TimedOut => 7u32,
        RuntimeError::Runtime => 8u32,
        RuntimeError::IncompatibleContract => 9u32,
        RuntimeError::IncompatibleExecutionProfile => 10u32,
    }
}

/// Map a Wi-Fi adapter error to a backend error.
pub fn map_error(error: Error) -> (e: BackendError)
    ensures
        e == match error {
            Error::Initialize(code) => BackendError { class: BackendErrorClass::Initialize, code },
            Error::Busy => BackendError { class: BackendErrorClass::Busy, code: 1 },
            Error::Timeout => BackendError { class: BackendErrorClass::Timeout, code: 1 },
            Error::UnsupportedSecurity(mode) => BackendError {
                class: BackendErrorClass::UnsupportedSecurity,
                code: mode as u32,
            },
            Error::ConnectFailed(status) => BackendError { class: BackendErrorClass::Connect, code: status as u32 },
            Error::Disconnected(reason) => BackendError { class: BackendErrorClass::Connect, code: reason as u32 },
            Error::StartConnect(code) => BackendError { class: BackendErrorClass::Connect, code: code as u32 },
            Error::AlreadyInitialized => BackendError { class: BackendErrorClass::Initialize, code: 2 },
            Error::CreateStation(code) => BackendError { class: BackendErrorClass::Other, code: code as u32 },
            Error::RegisterEvents(code) => BackendError { class: BackendErrorClass::Other, code: code as u32 },
            Error::OpenStation(code) => BackendError { class: BackendErrorClass::Other, code: code as u32 },
            Error::StartScan(code) => BackendError { class: BackendErrorClass::Other, code: code as u32 },
            Error::Timebase(code) => BackendError { class: BackendErrorClass::Other, code },
            Error::ScanFailed(status) => BackendError {
                class: BackendErrorClass::Other,
                code: match status {
                    ScanStatus::Success => 0u32,
                    ScanStatus::Failed => 1u32,
                    ScanStatus::Refused => 2u32,
                    ScanStatus::Timeout => 3u32,
                    ScanStatus::Unknown(c) => c,
                },
            },
            Error::InvalidSsid => BackendError { class: BackendErrorClass::Other, code: 0x100 },
            Error::ProtectedNetwork => BackendError { class: BackendErrorClass::UnsupportedSecurity, code: 0x101 },
            Error::OpenNetwork => BackendError { class: BackendErrorClass::UnsupportedSecurity, code: 0x101 },
            Error::InvalidPassphrase => BackendError { class: BackendErrorClass::UnsupportedSecurity, code: 0x101 },
            Error::UnsupportedTarget => BackendError { class: BackendErrorClass::Other, code: u32::MAX },
        },
{
    match error {
        Error::Initialize(code) => BackendError { class: BackendErrorClass::Initialize, code },
        Error::Busy => BackendError { class: BackendErrorClass::Busy, code: 1 },
        Error::Timeout => BackendError { class: BackendErrorClass::Timeout, code: 1 },
        Error::UnsupportedSecurity(mode) => BackendError {
            class: BackendErrorClass::UnsupportedSecurity,
            code: mode as u32,
        },
        Error::ConnectFailed(status) => BackendError { class: BackendErrorClass::Connect, code: status as u32 },
        Error::Disconnected(reason) => BackendError { class: BackendErrorClass::Connect, code: reason as u32 },
        Error::StartConnect(code) => BackendError { class: BackendErrorClass::Connect, code: code as u32 },
        Error::AlreadyInitialized => BackendError { class: BackendErrorClass::Initialize, code: 2 },
        Error::CreateStation(code) => BackendError { class: BackendErrorClass::Other, code: code as u32 },
        Error::RegisterEvents(code) => BackendError { class: BackendErrorClass::Other, code: code as u32 },
        Error::OpenStation(code) => BackendError { class: BackendErrorClass::Other, code: code as u32 },
        Error::StartScan(code) => BackendError { class: BackendErrorClass::Other, code: code as u32 },
        Error::Timebase(code) => BackendError { class: BackendErrorClass::Other, code },
        Error::ScanFailed(status) => BackendError { class: BackendErrorClass::Other, code: scan_status_code(status) },
        Error::InvalidSsid => BackendError { class: BackendErrorClass::Other, code: 0x100 },
        Error::ProtectedNetwork => BackendError { class: BackendErrorClass::UnsupportedSecurity, code: 0x101 },
        Error::OpenNetwork => BackendError { class: BackendErrorClass::UnsupportedSecurity, code: 0x101 },
        Error::InvalidPassphrase => BackendError { class: BackendErrorClass::UnsupportedSecurity, code: 0x101 },
        Error::UnsupportedTarget => BackendError { class: BackendErrorClass::Other, code: u32::MAX },
    }
}

/// Failures of the native supplicant context.
#[derive(Clone, Copy, Debug, PartialEq, Eq, Structural)]
pub enum NativeSupplicantError {
    /// The OS/driver seam could not be installed.
    Port,
    InvalidContextLayout,
    AllocationFailed,
    CreateFailed,
    InitializeFailed(i32),
    EnableEapolFailed(i32),
    FeedMgmtFailed(i32),
    MgmtQueueOverflow(u32),
    FeedScanFailed(i32),
    ScanQueueOverflow(u32),
    FeedLinkFailed(i32),
    LinkQueueOverflow(u32),
    FeedExternalAuthFailed(i32),
    ExternalAuthQueueOverflow(u32),
    FeedEapolFailed(i32),
    ConfigureFailed(i32),
    ConnectFailed(i32),
    DisconnectFailed(i32),
    InvalidResult,
    PollFailed(i32),
}

/// `tag` with the low 12 bits of a status.
pub open spec fn tagged_status(tag: u32, status: i32) -> u32 {
    tag | (status as u32 & 0xfff)
}

/// `tag` with a count saturated at `0xfff`.
pub open spec fn tagged_count(tag: u32, count: u32) -> u32 {
    tag | (if count < 0xfff { count } else { 0xfff })
}

/// Class and code (before the `0x5732_0000` prefix) of a supplicant failure.
pub open spec fn native_error_parts(error: NativeSupplicantError) -> (BackendErrorClass, u32) {
    match error {
        NativeSupplicantError::Port => (BackendErrorClass::Initialize, 1),
        NativeSupplicantError::InvalidContextLayout => (BackendErrorClass::Initialize, 2),
        NativeSupplicantError::AllocationFailed => (BackendErrorClass::Initialize, 3),
        NativeSupplicantError::CreateFailed => (BackendErrorClass::Initialize, 4),
        NativeSupplicantError::InitializeFailed(s) => (BackendErrorClass::Initialize, tagged_status(0x1000, s)),
        NativeSupplicantError::EnableEapolFailed(s) => (BackendErrorClass::Initialize, tagged_status(0x2000, s)),
        NativeSupplicantError::FeedMgmtFailed(s) => (BackendErrorClass::Other, tagged_status(0x3000, s)),
        NativeSupplicantError::FeedEapolFailed(s) => (BackendErrorClass::Other, tagged_status(0x4000, s)),
        NativeSupplicantError::MgmtQueueOverflow(c) => (BackendErrorClass::Other, tagged_count(0x6000, c)),
        NativeSupplicantError::FeedScanFailed(s) => (BackendErrorClass::Other, tagged_status(0x7000, s)),
        NativeSupplicantError::ScanQueueOverflow(c) => (BackendErrorClass::Other, tagged_count(0x8000, c)),
        NativeSupplicantError::FeedLinkFailed(s) => (BackendErrorClass::Connect, tagged_status(0x9000, s)),
        NativeSupplicantError::LinkQueueOverflow(c) => (BackendErrorClass::Connect, tagged_count(0xa000, c)),
        NativeSupplicantError::FeedExternalAuthFailed(s) => (BackendErrorClass::Connect, tagged_status(0xe000, s)),
        NativeSupplicantError::ExternalAuthQueueOverflow(c) => (
            BackendErrorClass::Connect,
            tagged_count(0xf000, c),
        ),
        NativeSupplicantError::ConfigureFailed(s) => (BackendErrorClass::Connect, tagged_status(0xb000, s)),
        NativeSupplicantError::ConnectFailed(s) => (BackendErrorClass::Connect, tagged_status(0xc000, s)),
        NativeSupplicantError::DisconnectFailed(s) => (BackendErrorClass::Connect, tagged_status(0xd000, s)),
        NativeSupplicantError::InvalidResult => (BackendErrorClass::Other, 5),
        NativeSupplicantError::PollFailed(s) => (BackendErrorClass::Other, tagged_status(0x5000, s)),
    }
}

fn tag_status(tag: u32, status: i32) -> (r: u32)
    ensures
        r == tagged_status(tag, status),
{
    tag | (status as u32 & 0xfff)
}

fn tag_count(tag: u32, count: u32) -> (r: u32)
    ensures
        r == tagged_count(tag, count),
{
    tag | (if count < 0xfff { count } else { 0xfff })
}

/// Map a supplicant failure to a backend error: its class, and its code
/// under the `0x5732_0000` prefix.
pub fn map_native_error(error: NativeSupplicantError) -> (e: BackendError)
    ensures
        e.class == native_error_parts(error).0,
        e.code == 0x5732_0000u32 | native_error_parts(error).1,
{
    let (class, code) = match error {
        NativeSupplicantError::Port => (BackendErrorClass::Initialize, 1u32),
        NativeSupplicantError::InvalidContextLayout => (BackendErrorClass::Initialize, 2u32),
        NativeSupplicantError::AllocationFailed => (BackendErrorClass::Initialize, 3u32),
        NativeSupplicantError::CreateFailed => (BackendErrorClass::Initialize, 4u32),
        NativeSupplicantError::InitializeFailed(s) => (BackendErrorClass::Initialize, tag_status(0x1000, s)),
        NativeSupplicantError::EnableEapolFailed(s) => (BackendErrorClass::Initialize, tag_status(0x2000, s)),
        NativeSupplicantError::FeedMgmtFailed(s) => (BackendErrorClass::Other, tag_status(0x3000, s)),
        NativeSupplicantError::FeedEapolFailed(s) => (BackendErrorClass::Other, tag_status(0x4000, s)),
        NativeSupplicantError::MgmtQueueOverflow(c) => (BackendErrorClass::Other, tag_count(0x6000, c)),
        NativeSupplicantError::FeedScanFailed(s) => (BackendErrorClass::Other, tag_status(0x7000, s)),
        NativeSupplicantError::ScanQueueOverflow(c) => (BackendErrorClass::Other, tag_count(0x8000, c)),
        NativeSupplicantError::FeedLinkFailed(s) => (BackendErrorClass::Connect, tag_status(0x9000, s)),
        NativeSupplicantError::LinkQueueOverflow(c) => (BackendErrorClass::Connect, tag_count(0xa000, c)),
        NativeSupplicantError::FeedExternalAuthFailed(s) => (BackendErrorClass::Connect, tag_status(0xe000, s)),
        NativeSupplicantError::ExternalAuthQueueOverflow(c) => (BackendErrorClass::Connect, tag_count(0xf000, c)),
        NativeSupplicantError::ConfigureFailed(s) => (BackendErrorClass::Connect, tag_status(0xb000, s)),
        NativeSupplicantError::ConnectFailed(s) => (BackendErrorClass::Connect, tag_status(0xc000, s)),
        NativeSupplicantError::DisconnectFailed(s) => (BackendErrorClass::Connect, tag_status(0xd000, s)),
        NativeSupplicantError::InvalidResult => (BackendErrorClass::Other, 5u32),
        NativeSupplicantError::PollFailed(s) => (BackendErrorClass::Other, tag_status(0x5000, s)),
    };
    BackendError { class, code: 0x5732_0000u32 | code }
}

/// Code reported for a terminal supplicant failure: the context and port
/// diagnostic words packed under a `0xd` nibble.
pub open spec fn spec_failure_code(context: u32, port: u32) -> u32 {
    0xd000_0000u32 | ((context & 0x0fff) << 16u32) | (port & 0xffff)
}

/// [`spec_failure_code`].
pub fn backend_failure_code(context: u32, port: u32) -> (code: u32)
    ensures
        code == spec_failure_code(context, port),
{
    0xd000_0000u32 | ((context & 0x0fff) << 16u32) | (port & 0xffff)
}

/// Code reported when a connection attempt times out without a disconnect
/// status: the last event kind, the context and the port diagnostic words.
pub open spec fn spec_timeout_code(last_kind: u8, context: u32, port: u32) -> u32 {
    0x8000_0000u32 | (((last_kind as u32) & 0x7) << 28u32) | ((context & 0x0fff) << 16u32) | port
}

/// [`spec_timeout_code`].
pub fn connect_timeout_code(last_kind: u8, context: u32, port: u32) -> (code: u32)
    ensures
        code == spec_timeout_code(last_kind, context, port),
{
    0x8000_0000u32 | (((last_kind as u32) & 0x7) << 28u32) | ((context & 0x0fff) << 16u32) | port
}

/// Progress of a connection attempt across native events.
#[derive(Clone, Copy, Debug, PartialEq, Eq, Structural)]
pub struct ConnectTracker {
    /// Kind of the last event seen.
    pub last_event_kind: u8,
    /// Last non-zero disconnect status.
    pub last_disconnect_status: Option<i32>,
}

/// What to do after a native event while connecting.
#[derive(Clone, Copy, Debug, PartialEq, Eq, Structural)]
pub enum ConnectStep {
    /// Keep polling.
    Continue,
    /// Connected.
    Authorized,
    /// The attempt failed with this status: report a failure code.
    Failed(i32),
}

/// What ends a connection attempt at its deadline.
#[derive(Clone, Copy, Debug, PartialEq, Eq, Structural)]
pub enum ConnectDeadline {
    /// Time is left: sleep a millisecond and poll again.
    Wait,
    /// Deadline passed after a disconnect with this status: disconnect and
    /// report a failure code.
    DisconnectFailure(i32),
    /// Deadline passed with no disconnect status: disconnect and report a
    /// time-out code.
    TimedOut,
}

impl ConnectTracker {
    /// No event seen yet.
    pub fn new() -> (t: Self)
        ensures
            t.last_event_kind == 0,
            t.last_disconnect_status is None,
    {
        ConnectTracker { last_event_kind: 0, last_disconnect_status: None }
    }

    /// Account for one native event. A disconnect is not terminal: the
    /// supplicant retries until authorized or the overall deadline.
    pub fn on_event(&mut self, kind: u8, status: i32) -> (step: ConnectStep)
        ensures
            final(self).last_event_kind == kind,
            kind == NATIVE_EVENT_AUTHORIZED ==> step == ConnectStep::Authorized
                && final(self).last_disconnect_status == old(self).last_disconnect_status,
            kind == NATIVE_EVENT_FAILED ==> step == ConnectStep::Failed(status)
                && final(self).last_disconnect_status == old(self).last_disconnect_status,
            kind == NATIVE_EVENT_DISCONNECTED ==> step == ConnectStep::Continue
                && final(self).last_disconnect_status == (if status != 0 {
                    Some(status)
                } else {
                    old(self).last_disconnect_status
                }),
            kind != NATIVE_EVENT_AUTHORIZED && kind != NATIVE_EVENT_DISCONNECTED && kind != NATIVE_EVENT_FAILED
                ==> step == ConnectStep::Continue && final(self).last_disconnect_status == old(
                self,
            ).last_disconnect_status,
    {
        self.last_event_kind = kind;
        match classify_native_connect_event(kind) {
            NativeConnectEvent::Progress => ConnectStep::Continue,
            NativeConnectEvent::Authorized => ConnectStep::Authorized,
            NativeConnectEvent::Disconnected => {
                if status != 0 {
                    self.last_disconnect_status = Some(status);
                }
                ConnectStep::Continue
            },
            NativeConnectEvent::Failed => ConnectStep::Failed(status),
        }
    }

    /// Check the deadline `timeout_ms` after the start, `elapsed_ms` in.
    pub fn on_deadline(&self, elapsed_ms: u64, timeout_ms: u32) -> (d: ConnectDeadline)
        ensures
            elapsed_ms < timeout_ms ==> d == ConnectDeadline::Wait,
            elapsed_ms >= timeout_ms ==> d == match self.last_disconnect_status {
                Some(s) => ConnectDeadline::DisconnectFailure(s),
                None => ConnectDeadline::TimedOut,
            },
    {
        if elapsed_ms < timeout_ms as u64 {
            return ConnectDeadline::Wait;
        }
        match self.last_disconnect_status {
            Some(s) => ConnectDeadline::DisconnectFailure(s),
            None => ConnectDeadline::TimedOut,
        }
    }
}

/// What a native event means while disconnecting: `Some(Ok)` done,
/// `Some(Err)` failed with the event status as code, `None` keep polling.
pub fn disconnect_event(kind: u8, status: i32) -> (r: Option<Result<(), BackendError>>)
    ensures
        kind == NATIVE_EVENT_DISCONNECTED ==> r == Some(Ok::<(), BackendError>(())),
        kind == NATIVE_EVENT_FAILED ==> r == Some(
            Err::<(), BackendError>(BackendError { class: BackendErrorClass::Connect, code: status as u32 }),
        ),
        kind != NATIVE_EVENT_DISCONNECTED && kind != NATIVE_EVENT_FAILED ==> r is None,
{
    if kind == NATIVE_EVENT_DISCONNECTED {
        Some(Ok(()))
    } else if kind == NATIVE_EVENT_FAILED {
        Some(Err(BackendError { class: BackendErrorClass::Connect, code: status as u32 }))
    } else {
        None
    }
}

/// The error when a disconnect does not complete within its deadline.
pub fn disconnect_timeout(elapsed_ms: u64, timeout_ms: u32) -> (r: Option<BackendError>)
    ensures
        elapsed_ms < timeout_ms ==> r is None,
        elapsed_ms >= timeout_ms ==> r == Some(BackendError { class: BackendErrorClass::Timeout, code: 2 }),
{
    if elapsed_ms >= timeout_ms as u64 {
        Some(BackendError { class: BackendErrorClass::Timeout, code: 2 })
    } else {
        None
    }
}

/// Indices, in order, of the cached scan results whose SSID is usable, at
/// most `capacity` of them.
pub open spec fn usable_indices(usable: Seq<bool>, n: int) -> Seq<usize>
    decreases n,
{
    if n <= 0 {
        Seq::empty()
    } else if usable[n - 1] {
        usable_indices(usable, n - 1).push((n - 1) as usize)
    } else {
        usable_indices(usable, n - 1)
    }
}

/// Pick the scan results to report: the usable ones in cache order, up to
/// `capacity`. The flag says whether fewer were reported than were cached.
pub fn select_scan_results(usable: &[bool], capacity: usize) -> (r: (Vec<usize>, bool))
    ensures
        ({
            let all = usable_indices(usable@, usable@.len() as int);
            let n = if all.len() < capacity { all.len() as int } else { capacity as int };
            &&& r.0@ == all.take(n)
            &&& r.1 == (r.0@.len() < usable@.len())
        }),
{
    let mut v: Vec<usize> = Vec::new();
    let mut i: usize = 0;
    while i < usable.len() && v.len() < capacity
        invariant
            i <= usable@.len(),
            v@.len() <= capacity,
            v@.len() < capacity ==> v@ == usable_indices(usable@, i as int),
            v@.len() == capacity ==> usable_indices(usable@, i as int).len() >= capacity && v@ == usable_indices(
                usable@,
                i as int,
            ).take(capacity as int),
        decreases usable@.len() - i,
    {
        if usable[i] {
            v.push(i);
        }
        i += 1;
        proof {
            if v@.len() == capacity {
                assert(usable_indices(usable@, i as int).take(capacity as int) =~= v@);
            }
        }
    }
    proof {
        lemma_usable_prefix(usable@, i as int, usable@.len() as int);
        let all = usable_indices(usable@, usable@.len() as int);
        if v@.len() < capacity {
            assert(all.take(all.len() as int) =~= all);
        } else {
            assert(all.take(capacity as int) =~= usable_indices(usable@, i as int).take(capacity as int));
        }
    }
    let truncated = v.len() < usable.len();
    (v, truncated)
}

proof fn lemma_usable_prefix(usable: Seq<bool>, m: int, n: int)
    requires
        0 <= m <= n,
    ensures
        usable_indices(usable, m).len() <= usable_indices(usable, n).len(),
        usable_indices(usable, n).take(usable_indices(usable, m).len() as int) == usable_indices(usable, m),
    decreases n - m,
{
    if m < n {
        lemma_usable_prefix(usable, m, n - 1);
        assert(usable_indices(usable, n).take(usable_indices(usable, m).len() as int) =~= usable_indices(
            usable,
            n - 1,
        ).take(usable_indices(usable, m).len() as int));
    }
}

} // verus!
