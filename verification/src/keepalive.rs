//! The decisions of the task that keeps a streaming-pull stream alive.
//!
//! The task writes an empty request into the stream every keepalive period.
//! A watchdog checks, every few seconds, whether the last ping went
//! unanswered for too long; if so it signals a timeout and the task ends. The
//! task also ends when it is asked to shut down. Times are in milliseconds,
//! all measured from one origin.

use vstd::prelude::*;

verus! {

/// How often a keepalive ping is written into the stream.
pub const KEEPALIVE_PERIOD_MS: u64 = 30_000;

/// How often the watchdog checks for an unanswered ping.
pub const WATCHDOG_PERIOD_MS: u64 = 10_000;

/// How long a ping may go unanswered before the watchdog signals a timeout.
pub const PING_RESPONSE_TIMEOUT_MS: u64 = 15_000;

/// What the keepalive task remembers between events.
#[derive(Clone, Copy, Debug, PartialEq, Eq)]
pub struct KeepaliveState {
    /// When the last ping was sent, if one was.
    pub last_ping_ms: Option<u64>,
}

/// What wakes the keepalive task up.
#[derive(Clone, Copy, Debug, PartialEq, Eq)]
pub enum KeepaliveEvent {
    /// The task was asked to shut down.
    Shutdown,
    /// The keepalive period has passed.
    KeepaliveTick,
    /// A ping was written into the stream at the given time.
    PingSent { at_ms: u64 },
    /// The watchdog period has passed; `last_response_ms` is when the server
    /// last answered.
    WatchdogTick { now_ms: u64, last_response_ms: u64 },
}

/// What the keepalive task does next.
#[derive(Clone, Copy, Debug, PartialEq, Eq)]
pub enum KeepaliveAction {
    /// End the task.
    Stop,
    /// Write a keepalive ping into the stream, then report `PingSent`.
    SendPing,
    /// Wait for the next event.
    Continue,
    /// Signal the keepalive timeout, then end the task.
    CancelWatchdogAndStop,
}

/// Whether the last ping has gone unanswered for longer than the timeout: a
/// ping was sent, no response came after it, and more than the timeout has
/// passed since it was sent.
pub open spec fn ping_unanswered(last_ping_ms: Option<u64>, now_ms: u64, last_response_ms: u64) -> bool {
    match last_ping_ms {
        Some(ping) => ping > last_response_ms && now_ms - ping > PING_RESPONSE_TIMEOUT_MS,
        None => false,
    }
}

/// The keepalive task's next state and action after an event.
pub open spec fn keepalive_transition(state: KeepaliveState, event: KeepaliveEvent) -> (
    KeepaliveState,
    KeepaliveAction,
) {
    match event {
        KeepaliveEvent::Shutdown => (state, KeepaliveAction::Stop),
        KeepaliveEvent::KeepaliveTick => (state, KeepaliveAction::SendPing),
        KeepaliveEvent::PingSent { at_ms } => (
            KeepaliveState { last_ping_ms: Some(at_ms) },
            KeepaliveAction::Continue,
        ),
        KeepaliveEvent::WatchdogTick { now_ms, last_response_ms } => {
            if ping_unanswered(state.last_ping_ms, now_ms, last_response_ms) {
                (state, KeepaliveAction::CancelWatchdogAndStop)
            } else {
                (state, KeepaliveAction::Continue)
            }
        },
    }
}

impl KeepaliveState {
    /// The state of a task that has sent no ping yet.
    pub fn new() -> (s: KeepaliveState)
        ensures
            s.last_ping_ms is None,
    {
        KeepaliveState { last_ping_ms: None }
    }

    /// Takes an event and says what to do next.
    pub fn step(&mut self, event: KeepaliveEvent) -> (a: KeepaliveAction)
        ensures
            (*final(self), a) == keepalive_transition(*old(self), event),
            event matches KeepaliveEvent::PingSent { at_ms } ==> a == KeepaliveAction::Continue
                && final(self).last_ping_ms == Some(at_ms),
    {
        match event {
            KeepaliveEvent::Shutdown => KeepaliveAction::Stop,
            KeepaliveEvent::KeepaliveTick => KeepaliveAction::SendPing,
            KeepaliveEvent::PingSent { at_ms } => {
                self.last_ping_ms = Some(at_ms);
                KeepaliveAction::Continue
            },
            KeepaliveEvent::WatchdogTick { now_ms, last_response_ms } => {
                match self.last_ping_ms {
                    Some(ping) => {
                        if ping > last_response_ms && now_ms.saturating_sub(ping)
                            > PING_RESPONSE_TIMEOUT_MS {
                            KeepaliveAction::CancelWatchdogAndStop
                        } else {
                            KeepaliveAction::Continue
                        }
                    },
                    None => KeepaliveAction::Continue,
                }
            },
        }
    }
}

/// A shutdown always ends the task, whatever its state, and changes nothing.
pub proof fn lemma_shutdown_stops(state: KeepaliveState)
    ensures
        keepalive_transition(state, KeepaliveEvent::Shutdown) == (state, KeepaliveAction::Stop),
{
}

/// Before any ping has been sent the watchdog never fires.
pub proof fn lemma_no_timeout_before_first_ping(now_ms: u64, last_response_ms: u64)
    ensures
        keepalive_transition(
            KeepaliveState { last_ping_ms: None },
            KeepaliveEvent::WatchdogTick { now_ms, last_response_ms },
        ).1 == KeepaliveAction::Continue,
{
}

/// Once the server has answered at or after the last ping, the watchdog does
/// not fire, however much time passes.
pub proof fn lemma_answered_ping_never_times_out(ping_ms: u64, now_ms: u64, last_response_ms: u64)
    requires
        last_response_ms >= ping_ms,
    ensures
        keepalive_transition(
            KeepaliveState { last_ping_ms: Some(ping_ms) },
            KeepaliveEvent::WatchdogTick { now_ms, last_response_ms },
        ) == (KeepaliveState { last_ping_ms: Some(ping_ms) }, KeepaliveAction::Continue),
{
}

/// A ping that the server has not answered makes the watchdog fire exactly
/// when more than the timeout has passed since it was sent.
pub proof fn lemma_unanswered_ping_times_out(ping_ms: u64, now_ms: u64, last_response_ms: u64)
    requires
        last_response_ms < ping_ms,
    ensures
        keepalive_transition(
            KeepaliveState { last_ping_ms: Some(ping_ms) },
            KeepaliveEvent::WatchdogTick { now_ms, last_response_ms },
        ).1 == (if now_ms > ping_ms + PING_RESPONSE_TIMEOUT_MS {
            KeepaliveAction::CancelWatchdogAndStop
        } else {
            KeepaliveAction::Continue
        }),
{
}

/// Every keepalive tick asks for a ping, and the ping's time is what the next
/// watchdog check measures from.
pub proof fn lemma_ping_is_recorded(state: KeepaliveState, at_ms: u64)
    ensures
        keepalive_transition(state, KeepaliveEvent::KeepaliveTick) == (state, KeepaliveAction::SendPing),
        keepalive_transition(state, KeepaliveEvent::PingSent { at_ms }).0.last_ping_ms == Some(at_ms),
{
}

/// Recording a sent ping never ends the task, whatever pings came before:
/// the task goes on, remembering the new ping. Only a shutdown or an
/// unanswered ping ends it.
pub proof fn lemma_recording_a_ping_keeps_running(state: KeepaliveState, at_ms: u64)
    ensures
        keepalive_transition(state, KeepaliveEvent::PingSent { at_ms }) == (
            KeepaliveState { last_ping_ms: Some(at_ms) },
            KeepaliveAction::Continue,
        ),
{
}

/// The task ends only on a shutdown or when the watchdog fires on a ping
/// that went unanswered for more than the timeout.
pub proof fn lemma_task_ends_only_on_shutdown_or_timeout(state: KeepaliveState, event: KeepaliveEvent)
    ensures
        keepalive_transition(state, event).1 == KeepaliveAction::Stop <==> event
            == KeepaliveEvent::Shutdown,
        keepalive_transition(state, event).1 == KeepaliveAction::CancelWatchdogAndStop <==> (
        event matches KeepaliveEvent::WatchdogTick { now_ms, last_response_ms } && state.last_ping_ms
            matches Some(ping) && last_response_ms < ping && now_ms > ping + 15_000),
{
}

} // verus!
