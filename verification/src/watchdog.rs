//! The decisions of the monitor that watches for server responses on a
//! streaming-pull connection.
//!
//! The monitor wakes up periodically and compares the time of the last
//! response from the server with the current time; when no response came
//! within the tolerance window it signals a keepalive timeout and ends. It
//! also ends when the timeout has been signalled by someone else. Times are
//! in milliseconds, all measured from one origin.

use vstd::prelude::*;

verus! {

/// How long the server may stay silent before a keepalive timeout.
pub const SERVER_KEEP_ALIVE_TIMEOUT_MS: u64 = 15_000;

/// How often the monitor checks.
pub const MONITOR_PERIOD_MS: u64 = 5_000;

/// What wakes a monitor up.
#[derive(Clone, Copy, Debug, PartialEq, Eq)]
pub enum MonitorEvent {
    /// The timeout has been signalled, or the monitor was asked to stop.
    Cancelled,
    /// The check period has passed; the server last answered at
    /// `last_response_ms`, and it is now `now_ms`.
    Tick { last_response_ms: u64, now_ms: u64 },
}

/// What a monitor does next.
#[derive(Clone, Copy, Debug, PartialEq, Eq)]
pub enum MonitorAction {
    /// End the monitor.
    Stop,
    /// Wait for the next event.
    Continue,
    /// Signal the timeout, then end the monitor.
    CancelAndStop,
}

/// The time that has passed since the last response; none if the response
/// seems to lie in the future.
pub open spec fn elapsed_since(last_response_ms: u64, now_ms: u64) -> int {
    if now_ms >= last_response_ms {
        now_ms - last_response_ms
    } else {
        0
    }
}

/// Whether the server has been silent for at least the tolerance window.
pub open spec fn response_timed_out(last_response_ms: u64, now_ms: u64) -> bool {
    elapsed_since(last_response_ms, now_ms) >= SERVER_KEEP_ALIVE_TIMEOUT_MS
}

/// The monitor's action after an event.
pub open spec fn monitor_transition(event: MonitorEvent) -> MonitorAction {
    match event {
        MonitorEvent::Cancelled => MonitorAction::Stop,
        MonitorEvent::Tick { last_response_ms, now_ms } => {
            if response_timed_out(last_response_ms, now_ms) {
                MonitorAction::CancelAndStop
            } else {
                MonitorAction::Continue
            }
        },
    }
}

/// Whether no response has come within the tolerance window.
pub fn is_response_timed_out(last_response_ms: u64, now_ms: u64) -> (r: bool)
    ensures
        r == response_timed_out(last_response_ms, now_ms),
        r == (last_response_ms <= now_ms && now_ms - last_response_ms >= 15_000),
{
    now_ms.saturating_sub(last_response_ms) >= SERVER_KEEP_ALIVE_TIMEOUT_MS
}

/// Takes an event and says what the monitor does next.
pub fn watchdog_monitor_step(event: MonitorEvent) -> (a: MonitorAction)
    ensures
        a == monitor_transition(event),
{
    match event {
        MonitorEvent::Cancelled => MonitorAction::Stop,
        MonitorEvent::Tick { last_response_ms, now_ms } => {
            if is_response_timed_out(last_response_ms, now_ms) {
                MonitorAction::CancelAndStop
            } else {
                MonitorAction::Continue
            }
        },
    }
}

/// A timeout, once due, stays due as time goes on while no response comes.
pub proof fn lemma_timeout_persists(last_response_ms: u64, now_ms: u64, later_ms: u64)
    requires
        response_timed_out(last_response_ms, now_ms),
        now_ms <= later_ms,
    ensures
        response_timed_out(last_response_ms, later_ms),
{
}

/// A response just received keeps the monitor going, and so does any
/// response received within the tolerance window.
pub proof fn lemma_recent_response_keeps_alive(last_response_ms: u64, now_ms: u64)
    requires
        now_ms < last_response_ms + SERVER_KEEP_ALIVE_TIMEOUT_MS,
    ensures
        monitor_transition(MonitorEvent::Tick { last_response_ms, now_ms }) == MonitorAction::Continue,
{
}

/// The timeout fires as soon as the server has been silent for the whole
/// tolerance window, whenever its last response came; and it does not fire
/// before.
pub proof fn lemma_silence_for_window_fires(last_response_ms: u64, now_ms: u64)
    requires
        last_response_ms <= now_ms,
    ensures
        now_ms - last_response_ms >= 15_000 ==> monitor_transition(
            MonitorEvent::Tick { last_response_ms, now_ms },
        ) == MonitorAction::CancelAndStop,
        now_ms - last_response_ms < 15_000 ==> monitor_transition(
            MonitorEvent::Tick { last_response_ms, now_ms },
        ) == MonitorAction::Continue,
{
}

/// Only the length of the silence matters: two ticks with the same silence
/// give the same action.
pub proof fn lemma_only_silence_matters(last1: u64, now1: u64, last2: u64, now2: u64)
    requires
        last1 <= now1,
        last2 <= now2,
        now1 - last1 == now2 - last2,
    ensures
        monitor_transition(MonitorEvent::Tick { last_response_ms: last1, now_ms: now1 })
            == monitor_transition(MonitorEvent::Tick { last_response_ms: last2, now_ms: now2 }),
{
}

/// A cancelled monitor always stops, without signalling anything itself.
pub proof fn lemma_cancelled_stops()
    ensures
        monitor_transition(MonitorEvent::Cancelled) == MonitorAction::Stop,
{
}

} // verus!
