use gcloud_core::keepalive::{
    KeepaliveAction, KeepaliveEvent, KeepaliveState, KEEPALIVE_PERIOD_MS,
    PING_RESPONSE_TIMEOUT_MS, WATCHDOG_PERIOD_MS,
};

#[test]
fn periods() {
    assert_eq!(KEEPALIVE_PERIOD_MS, 30_000);
    assert_eq!(WATCHDOG_PERIOD_MS, 10_000);
    assert_eq!(PING_RESPONSE_TIMEOUT_MS, 15_000);
}

#[test]
fn keepalive_tick_sends_ping_and_records_it() {
    let mut state = KeepaliveState::new();
    assert_eq!(state.step(KeepaliveEvent::KeepaliveTick), KeepaliveAction::SendPing);
    assert_eq!(state.last_ping_ms, None);
    assert_eq!(
        state.step(KeepaliveEvent::PingSent { at_ms: 30_000 }),
        KeepaliveAction::Continue
    );
    assert_eq!(state.last_ping_ms, Some(30_000));
}

#[test]
fn shutdown_stops() {
    let mut state = KeepaliveState::new();
    assert_eq!(state.step(KeepaliveEvent::Shutdown), KeepaliveAction::Stop);
    let mut state = KeepaliveState {
        last_ping_ms: Some(5),
    };
    assert_eq!(state.step(KeepaliveEvent::Shutdown), KeepaliveAction::Stop);
    assert_eq!(state.last_ping_ms, Some(5));
}

#[test]
fn watchdog_timeout() {
    // A ping at 30s, the server last answered at 0s.
    let mut state = KeepaliveState {
        last_ping_ms: Some(30_000),
    };
    assert_eq!(
        state.step(KeepaliveEvent::WatchdogTick {
            now_ms: 40_000,
            last_response_ms: 0
        }),
        KeepaliveAction::Continue
    );
    assert_eq!(
        state.step(KeepaliveEvent::WatchdogTick {
            now_ms: 45_000,
            last_response_ms: 0
        }),
        KeepaliveAction::Continue
    );
    assert_eq!(
        state.step(KeepaliveEvent::WatchdogTick {
            now_ms: 50_000,
            last_response_ms: 0
        }),
        KeepaliveAction::CancelWatchdogAndStop
    );
}

#[test]
fn answered_ping_does_not_time_out() {
    let mut state = KeepaliveState {
        last_ping_ms: Some(30_000),
    };
    assert_eq!(
        state.step(KeepaliveEvent::WatchdogTick {
            now_ms: 1_000_000,
            last_response_ms: 30_000
        }),
        KeepaliveAction::Continue
    );
}

#[test]
fn no_ping_no_timeout() {
    let mut state = KeepaliveState::new();
    assert_eq!(
        state.step(KeepaliveEvent::WatchdogTick {
            now_ms: 1_000_000,
            last_response_ms: 0
        }),
        KeepaliveAction::Continue
    );
}
