//! The decisions around a streaming-pull stream: how the stream is opened,
//! when the server counts as silent, and what reading the next message gives.
//! Times are in milliseconds, all measured from one origin.

use crate::keepalive::KEEPALIVE_PERIOD_MS;
use crate::rpc::{Status, CODE_UNAVAILABLE};
use crate::watchdog::{elapsed_since, MonitorAction, MonitorEvent};
use std::sync::Arc;
use vstd::prelude::*;

verus! {

/// The first delay between attempts to open a stream.
pub const INITIAL_DELAY_MS: u64 = 100;

/// The longest delay between attempts to open a stream.
pub const MAXIMUM_DELAY_MS: u64 = 60_000;

/// The factor by which the delay between attempts grows.
pub const BACKOFF_SCALING: u32 = 4;

/// How often the stream's response monitor checks.
pub const RESPONSE_CHECK_INTERVAL_MS: u64 = 10_000;

/// How long the server may stay silent on an open stream: a keepalive
/// period plus the time the server has to answer a ping.
pub const SERVER_RESPONSE_TIMEOUT_MS: u64 = KEEPALIVE_PERIOD_MS + 15_000;

/// The retry policy for opening a streaming-pull stream.
#[derive(Clone, Copy, Debug, PartialEq, Eq)]
pub struct StreamRetryPolicy;

/// The retry policy used when a stream is opened.
pub fn default_retry_policy() -> (r: Arc<StreamRetryPolicy>)
    ensures
        *r == StreamRetryPolicy,
{
    Arc::new(StreamRetryPolicy)
}

/// The routing parameters of a streaming-pull request: the subscription.
pub open spec fn request_params_of(subscription: Seq<char>) -> Seq<char> {
    "subscription="@ + subscription
}

/// The routing parameters sent when a stream for a subscription is opened.
pub fn request_params(subscription: &str) -> (r: String)
    ensures
        r@ == request_params_of(subscription@),
        r@ == "subscription="@ + subscription@,
{
    let mut s = "subscription=".to_owned();
    s.append(subscription);
    s
}

/// Whether the server has been silent on an open stream for longer than it
/// may be.
pub open spec fn server_response_overdue(last_response_ms: u64, now_ms: u64) -> bool {
    elapsed_since(last_response_ms, now_ms) > SERVER_RESPONSE_TIMEOUT_MS
}

/// The response monitor's action after an event.
pub open spec fn response_monitor_transition(event: MonitorEvent) -> MonitorAction {
    match event {
        MonitorEvent::Cancelled => MonitorAction::Stop,
        MonitorEvent::Tick { last_response_ms, now_ms } => {
            if server_response_overdue(last_response_ms, now_ms) {
                MonitorAction::CancelAndStop
            } else {
                MonitorAction::Continue
            }
        },
    }
}

/// Whether the server has been silent for longer than it may be.
pub fn is_server_response_overdue(last_response_ms: u64, now_ms: u64) -> (r: bool)
    ensures
        r == server_response_overdue(last_response_ms, now_ms),
        r == (last_response_ms <= now_ms && now_ms - last_response_ms > 45_000),
{
    now_ms.saturating_sub(last_response_ms) > SERVER_RESPONSE_TIMEOUT_MS
}

/// Takes an event of the stream's response monitor and says what it does
/// next: stop when the stream shuts down, signal the timeout when the server
/// is overdue, wait otherwise.
pub fn response_monitor_step(event: MonitorEvent) -> (a: MonitorAction)
    ensures
        a == response_monitor_transition(event),
{
    match event {
        MonitorEvent::Cancelled => MonitorAction::Stop,
        MonitorEvent::Tick { last_response_ms, now_ms } => {
            if is_server_response_overdue(last_response_ms, now_ms) {
                MonitorAction::CancelAndStop
            } else {
                MonitorAction::Continue
            }
        },
    }
}

/// The error a read gives once the keepalive timeout was signalled.
pub fn keepalive_timeout_status() -> (s: Status)
    ensures
        s.code == CODE_UNAVAILABLE,
        s.message@ == "keepalive timeout"@,
        s.details@.len() == 0,
{
    Status { code: CODE_UNAVAILABLE, message: "keepalive timeout".to_owned(), details: Vec::new() }
}

/// What reading the next message of a stream came to: the keepalive timeout
/// was signalled first, or the underlying stream produced a result.
pub enum NextMessageEvent<T> {
    KeepaliveTimeout,
    Received(core::result::Result<Option<T>, Status>),
}

/// What a read of the next message gives, and whether the time of the last
/// response must be set to now: after a timeout the read fails as
/// unavailable; otherwise it gives what the stream gave, and a message (not
/// an error, not the end of the stream) counts as a response.
pub fn finish_next_message<T>(event: NextMessageEvent<T>) -> (r: (
    core::result::Result<Option<T>, Status>,
    bool,
))
    ensures
        match event {
            NextMessageEvent::KeepaliveTimeout => {
                &&& r.0 is Err
                &&& r.0->Err_0.code == CODE_UNAVAILABLE
                &&& r.0->Err_0.message@ == "keepalive timeout"@
                &&& r.0->Err_0.details@.len() == 0
                &&& !r.1
            },
            NextMessageEvent::Received(res) => {
                &&& r.0 == res
                &&& r.1 == (res matches Ok(Some(_)))
            },
        },
{
    match event {
        NextMessageEvent::KeepaliveTimeout => (Err(keepalive_timeout_status()), false),
        NextMessageEvent::Received(res) => {
            let refresh = match &res {
                Ok(Some(_)) => true,
                _ => false,
            };
            (res, refresh)
        },
    }
}

/// A stream whose server answered within the allowed silence is never
/// timed out by the monitor.
pub proof fn lemma_recent_response_keeps_stream(last_response_ms: u64, now_ms: u64)
    requires
        now_ms <= last_response_ms + SERVER_RESPONSE_TIMEOUT_MS,
    ensures
        response_monitor_transition(MonitorEvent::Tick { last_response_ms, now_ms })
            == MonitorAction::Continue,
{
}

/// The stream is timed out as soon as the server has been silent for more
/// than a keepalive period plus fifteen seconds, whenever its last response
/// came; and not before.
pub proof fn lemma_silence_past_threshold_times_out(last_response_ms: u64, now_ms: u64)
    requires
        last_response_ms <= now_ms,
    ensures
        now_ms - last_response_ms > 45_000 ==> response_monitor_transition(
            MonitorEvent::Tick { last_response_ms, now_ms },
        ) == MonitorAction::CancelAndStop,
        now_ms - last_response_ms <= 45_000 ==> response_monitor_transition(
            MonitorEvent::Tick { last_response_ms, now_ms },
        ) == MonitorAction::Continue,
{
}

/// The routing parameters are the prefix followed by the whole
/// subscription, of any length: the subscription can be read back from them.
pub proof fn lemma_request_params_hold_subscription(subscription: Seq<char>)
    ensures
        request_params_of(subscription).len() == 13 + subscription.len(),
        request_params_of(subscription).subrange(0, 13) == "subscription="@,
        request_params_of(subscription).subrange(13, 13 + subscription.len() as int) == subscription,
{
    reveal_strlit("subscription=");
    assert(request_params_of(subscription).subrange(0, 13) =~= "subscription="@);
    assert(request_params_of(subscription).subrange(13, 13 + subscription.len() as int)
        =~= subscription);
}

/// Different subscriptions give different routing parameters.
pub proof fn lemma_request_params_injective(s1: Seq<char>, s2: Seq<char>)
    requires
        request_params_of(s1) == request_params_of(s2),
    ensures
        s1 == s2,
{
    lemma_request_params_hold_subscription(s1);
    lemma_request_params_hold_subscription(s2);
}

/// Once the server is overdue it stays overdue until it answers.
pub proof fn lemma_overdue_persists(last_response_ms: u64, now_ms: u64, later_ms: u64)
    requires
        server_response_overdue(last_response_ms, now_ms),
        now_ms <= later_ms,
    ensures
        server_response_overdue(last_response_ms, later_ms),
{
}

} // verus!
