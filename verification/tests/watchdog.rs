use gcloud_core::watchdog::{
    is_response_timed_out, watchdog_monitor_step, MonitorAction, MonitorEvent,
    MONITOR_PERIOD_MS, SERVER_KEEP_ALIVE_TIMEOUT_MS,
};

#[test]
fn test_watchdog_timeout_cancellation() {
    // The last response timestamp forced deep into the past: the first
    // check, a few seconds later, signals the timeout.
    let now_ms: u64 = 1_700_000_006_000;
    assert_eq!(
        watchdog_monitor_step(MonitorEvent::Tick {
            last_response_ms: 0,
            now_ms
        }),
        MonitorAction::CancelAndStop
    );
}

#[test]
fn tolerance_window() {
    assert_eq!(SERVER_KEEP_ALIVE_TIMEOUT_MS, 15_000);
    assert_eq!(MONITOR_PERIOD_MS, 5_000);
    assert!(!is_response_timed_out(1_000, 15_999));
    assert!(is_response_timed_out(1_000, 16_000));
    // A response stamped after the check is not a timeout.
    assert!(!is_response_timed_out(20_000, 1_000));
}

#[test]
fn recent_response_keeps_monitor_running() {
    assert_eq!(
        watchdog_monitor_step(MonitorEvent::Tick {
            last_response_ms: 10_000,
            now_ms: 20_000
        }),
        MonitorAction::Continue
    );
}

#[test]
fn cancelled_monitor_stops() {
    assert_eq!(
        watchdog_monitor_step(MonitorEvent::Cancelled),
        MonitorAction::Stop
    );
}
