use gcloud_core::rpc::{Status, CODE_UNAVAILABLE};
use gcloud_core::stream::{
    default_retry_policy, finish_next_message, is_server_response_overdue, keepalive_timeout_status,
    request_params, response_monitor_step, NextMessageEvent, StreamRetryPolicy, BACKOFF_SCALING,
    INITIAL_DELAY_MS, MAXIMUM_DELAY_MS, RESPONSE_CHECK_INTERVAL_MS, SERVER_RESPONSE_TIMEOUT_MS,
};
use gcloud_core::watchdog::{MonitorAction, MonitorEvent};

#[test]
fn request_params_name_the_subscription() {
    assert_eq!(
        request_params("projects/my-project/subscriptions/my-subscription"),
        "subscription=projects/my-project/subscriptions/my-subscription"
    );
    assert_eq!(request_params(""), "subscription=");
}

#[test]
fn settings() {
    assert_eq!(INITIAL_DELAY_MS, 100);
    assert_eq!(MAXIMUM_DELAY_MS, 60_000);
    assert_eq!(BACKOFF_SCALING, 4);
    assert_eq!(RESPONSE_CHECK_INTERVAL_MS, 10_000);
    assert_eq!(SERVER_RESPONSE_TIMEOUT_MS, 45_000);
    assert_eq!(*default_retry_policy(), StreamRetryPolicy);
}

#[test]
fn keepalive_server_response_timeout() {
    // Silent for 46s: overdue.
    assert!(is_server_response_overdue(0, 46_000));
    assert_eq!(
        response_monitor_step(MonitorEvent::Tick {
            last_response_ms: 0,
            now_ms: 46_000
        }),
        MonitorAction::CancelAndStop
    );
    // Exactly 45s is still allowed.
    assert!(!is_server_response_overdue(0, 45_000));
}

#[test]
fn keepalive_server_response_resets_timeout() {
    // A response at 30s; at 60s the server has been silent for 30s only.
    assert_eq!(
        response_monitor_step(MonitorEvent::Tick {
            last_response_ms: 30_000,
            now_ms: 60_000
        }),
        MonitorAction::Continue
    );
    assert_eq!(
        response_monitor_step(MonitorEvent::Cancelled),
        MonitorAction::Stop
    );
}

#[test]
fn timeout_read_is_unavailable() {
    let (res, refresh) = finish_next_message::<u32>(NextMessageEvent::KeepaliveTimeout);
    let err = res.unwrap_err();
    assert_eq!(err.code, CODE_UNAVAILABLE);
    assert_eq!(err.message, "keepalive timeout");
    assert!(!refresh);
    assert_eq!(keepalive_timeout_status(), err);
}

#[test]
fn messages_refresh_the_last_response() {
    let (res, refresh) = finish_next_message(NextMessageEvent::Received(Ok(Some(7u32))));
    assert_eq!(res, Ok(Some(7)));
    assert!(refresh);
    let (res, refresh) = finish_next_message::<u32>(NextMessageEvent::Received(Ok(None)));
    assert_eq!(res, Ok(None));
    assert!(!refresh);
    let failure = Status {
        code: 9,
        message: "fail".to_string(),
        details: Vec::new(),
    };
    let (res, refresh) =
        finish_next_message::<u32>(NextMessageEvent::Received(Err(failure.clone())));
    assert_eq!(res, Err(failure));
    assert!(!refresh);
}
