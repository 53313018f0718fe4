use ws63_rf::backend::{
    backend_failure_code, classify_native_connect_event, connect_timeout_code, disconnect_event,
    disconnect_timeout, map_error, map_native_error, not_initialized, runtime_code,
    scan_status_code, select_scan_results, sleep_error, BackendError, BackendErrorClass,
    ConnectDeadline, ConnectStep, ConnectTracker, NativeConnectEvent, NativeSupplicantError,
    RuntimeError, NATIVE_EVENT_AUTHORIZED, NATIVE_EVENT_DISCONNECTED, NATIVE_EVENT_FAILED,
};
use ws63_rf::wifi::{Error, ScanStatus};

#[test]
fn disconnected_is_recoverable_until_the_overall_connect_deadline() {
    assert_eq!(
        classify_native_connect_event(NATIVE_EVENT_DISCONNECTED),
        NativeConnectEvent::Disconnected
    );
    assert_eq!(
        classify_native_connect_event(NATIVE_EVENT_FAILED),
        NativeConnectEvent::Failed
    );
    assert_eq!(
        classify_native_connect_event(NATIVE_EVENT_AUTHORIZED),
        NativeConnectEvent::Authorized
    );
    assert_eq!(classify_native_connect_event(1), NativeConnectEvent::Progress);
    assert_eq!(classify_native_connect_event(2), NativeConnectEvent::Progress);
}

#[test]
fn connect_tracker_keeps_the_last_disconnect_until_the_deadline() {
    let mut t = ConnectTracker::new();
    assert_eq!(t.on_event(1, 0), ConnectStep::Continue);
    assert_eq!(t.on_event(NATIVE_EVENT_DISCONNECTED, 15), ConnectStep::Continue);
    assert_eq!(t.on_event(NATIVE_EVENT_DISCONNECTED, 0), ConnectStep::Continue);
    assert_eq!(t.last_disconnect_status, Some(15));
    assert_eq!(t.last_event_kind, NATIVE_EVENT_DISCONNECTED);
    assert_eq!(t.on_deadline(100, 1000), ConnectDeadline::Wait);
    assert_eq!(t.on_deadline(1000, 1000), ConnectDeadline::DisconnectFailure(15));
    assert_eq!(ConnectTracker::new().on_deadline(5000, 1000), ConnectDeadline::TimedOut);
    assert_eq!(t.on_event(NATIVE_EVENT_FAILED, -3), ConnectStep::Failed(-3));
    assert_eq!(t.on_event(NATIVE_EVENT_AUTHORIZED, 0), ConnectStep::Authorized);
}

#[test]
fn failure_and_timeout_codes_pack_context_and_port() {
    assert_eq!(backend_failure_code(0x1234, 0x5_6789), 0xd234_6789);
    assert_eq!(connect_timeout_code(4, 0x12, 0x34), 0x8000_0000 | (4 << 28) | (0x12 << 16) | 0x34);
    assert_eq!(connect_timeout_code(9, 0, 0), 0x8000_0000 | (1 << 28));
}

#[test]
fn runtime_errors_map_to_tagged_sleep_codes() {
    assert_eq!(runtime_code(RuntimeError::NotInstalled), 1);
    assert_eq!(runtime_code(RuntimeError::IncompatibleExecutionProfile), 10);
    let e = sleep_error(RuntimeError::TimedOut);
    assert_eq!(e, BackendError { class: BackendErrorClass::Other, code: 0x5732_e007 });
    assert_eq!(not_initialized(), BackendError { class: BackendErrorClass::Initialize, code: 0x1000_0003 });
}

#[test]
fn wifi_errors_map_to_backend_classes() {
    assert_eq!(map_error(Error::Busy), BackendError { class: BackendErrorClass::Busy, code: 1 });
    assert_eq!(map_error(Error::ConnectFailed(17)), BackendError { class: BackendErrorClass::Connect, code: 17 });
    assert_eq!(map_error(Error::StartScan(-1)), BackendError { class: BackendErrorClass::Other, code: u32::MAX });
    assert_eq!(
        map_error(Error::ScanFailed(ScanStatus::Unknown(42))),
        BackendError { class: BackendErrorClass::Other, code: 42 }
    );
    assert_eq!(scan_status_code(ScanStatus::Refused), 2);
    assert_eq!(map_error(Error::UnsupportedTarget).code, u32::MAX);
}

#[test]
fn native_errors_keep_twelve_status_bits_and_saturate_counts() {
    assert_eq!(
        map_native_error(NativeSupplicantError::Port),
        BackendError { class: BackendErrorClass::Initialize, code: 0x5732_0001 }
    );
    assert_eq!(map_native_error(NativeSupplicantError::ConnectFailed(-1)).code, 0x5732_cfff);
    assert_eq!(map_native_error(NativeSupplicantError::MgmtQueueOverflow(5)).code, 0x5732_6005);
    assert_eq!(map_native_error(NativeSupplicantError::LinkQueueOverflow(0x10000)).code, 0x5732_afff);
    assert_eq!(map_native_error(NativeSupplicantError::LinkQueueOverflow(1)).class, BackendErrorClass::Connect);
}

#[test]
fn disconnect_waits_for_its_event_or_deadline() {
    assert_eq!(disconnect_event(NATIVE_EVENT_DISCONNECTED, 0), Some(Ok(())));
    assert_eq!(
        disconnect_event(NATIVE_EVENT_FAILED, 7),
        Some(Err(BackendError { class: BackendErrorClass::Connect, code: 7 }))
    );
    assert_eq!(disconnect_event(1, 0), None);
    assert_eq!(disconnect_timeout(10, 100), None);
    assert_eq!(
        disconnect_timeout(100, 100),
        Some(BackendError { class: BackendErrorClass::Timeout, code: 2 })
    );
}

#[test]
fn scan_results_keep_usable_entries_up_to_capacity() {
    let (picked, truncated) = select_scan_results(&[true, false, true, true], 2);
    assert_eq!(picked, vec![0, 2]);
    assert!(truncated);
    let (picked, truncated) = select_scan_results(&[true, true], 5);
    assert_eq!(picked, vec![0, 1]);
    assert!(!truncated);
}
