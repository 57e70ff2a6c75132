//! Orderly shutdown: a logoff is sent, and the server's acknowledgment is
//! awaited for a bounded time.

use vstd::prelude::*;
use crate::session::BotConn;

verus! {

/// How long the acknowledgment of a logoff is awaited, in milliseconds.
pub const LOGOFF_TIMEOUT_MS: u64 = 10_000;

/// Where the shutdown stands.
#[derive(Debug, Clone, Copy, PartialEq, Eq)]
pub enum LogoffState {
    /// Nothing has been sent yet.
    Idle,
    /// The logoff notification is in flight.
    Sending,
    /// The logoff went out; the acknowledgment has not arrived.
    AwaitingAck,
    /// The shutdown is over, one way or the other.
    Closed,
}

/// What the shutdown has just seen. Times are measured from the moment the
/// wait for the acknowledgment began.
#[derive(Debug, PartialEq, Eq)]
pub enum LogoffEvent<E> {
    /// The caller asks for the shutdown.
    Begin,
    /// The logoff notification went out.
    Sent,
    /// The logoff notification could not be sent.
    SendFailed(E),
    /// An acknowledgment arrived and was decoded; it carries this result code.
    Acknowledged { eresult: i32, elapsed_ms: u64 },
    /// The wait ended in a network error.
    NetworkFailed { error: E, elapsed_ms: u64 },
    /// The wait lasted the whole timeout and nothing arrived.
    DeadlineElapsed,
}

/// Why a shutdown did not succeed.
#[derive(Debug, PartialEq, Eq)]
pub enum DisconnectError<E> {
    /// The logoff notification could not be sent.
    Send(E),
    /// The network failed while the acknowledgment was awaited.
    Network(E),
    /// No acknowledgment arrived within the timeout.
    NoResponse,
}

/// What the caller has to do after an event.
#[derive(Debug, PartialEq, Eq)]
pub enum LogoffAction<E> {
    /// Send the logoff notification, then report `Sent` or `SendFailed`.
    SendLogoff,
    /// Await the acknowledgment for at most `timeout_ms` and report what
    /// came of it.
    AwaitAck { timeout_ms: u64 },
    /// The shutdown is over: the result code of the acknowledgment, or the
    /// reason there is none. The session must not be used again.
    Finish(Result<i32, DisconnectError<E>>),
    /// The event means nothing in this state.
    Nothing,
}

/// Whether something that happened `elapsed_ms` into the wait still falls
/// within the timeout. The deadline itself is the last moment that counts.
pub open spec fn within_timeout(elapsed_ms: u64) -> bool {
    elapsed_ms <= LOGOFF_TIMEOUT_MS
}

/// The state that follows `state` when `event` is seen.
pub open spec fn logoff_next<E>(state: LogoffState, event: LogoffEvent<E>) -> LogoffState {
    match (state, event) {
        (LogoffState::Idle, LogoffEvent::Begin) => LogoffState::Sending,
        (LogoffState::Sending, LogoffEvent::Sent) => LogoffState::AwaitingAck,
        (LogoffState::Sending, LogoffEvent::SendFailed(_)) => LogoffState::Closed,
        (LogoffState::AwaitingAck, LogoffEvent::Acknowledged { .. }) => LogoffState::Closed,
        (LogoffState::AwaitingAck, LogoffEvent::NetworkFailed { .. }) => LogoffState::Closed,
        (LogoffState::AwaitingAck, LogoffEvent::DeadlineElapsed) => LogoffState::Closed,
        (state, _) => state,
    }
}

/// The action that `event` calls for when it is seen in `state`.
pub open spec fn logoff_action<E>(state: LogoffState, event: LogoffEvent<E>) -> LogoffAction<E> {
    match (state, event) {
        (LogoffState::Idle, LogoffEvent::Begin) => LogoffAction::SendLogoff,
        (LogoffState::Sending, LogoffEvent::Sent) => LogoffAction::AwaitAck {
            timeout_ms: LOGOFF_TIMEOUT_MS,
        },
        (LogoffState::Sending, LogoffEvent::SendFailed(error)) => LogoffAction::Finish(
            Err(DisconnectError::Send(error)),
        ),
        (LogoffState::AwaitingAck, LogoffEvent::Acknowledged { eresult, elapsed_ms }) => {
            if within_timeout(elapsed_ms) {
                LogoffAction::Finish(Ok(eresult))
            } else {
                LogoffAction::Finish(Err(DisconnectError::NoResponse))
            }
        },
        (LogoffState::AwaitingAck, LogoffEvent::NetworkFailed { error, elapsed_ms }) => {
            if within_timeout(elapsed_ms) {
                LogoffAction::Finish(Err(DisconnectError::Network(error)))
            } else {
                LogoffAction::Finish(Err(DisconnectError::NoResponse))
            }
        },
        (LogoffState::AwaitingAck, LogoffEvent::DeadlineElapsed) => LogoffAction::Finish(
            Err(DisconnectError::NoResponse),
        ),
        (_, _) => LogoffAction::Nothing,
    }
}

impl BotConn {
    /// One step of the shutdown of this session.
    ///
    /// Starting from `LogoffState::Idle` with the event `Begin`, the caller
    /// performs each action and reports what came of it. The shutdown
    /// succeeds only if a decoded acknowledgment arrives while it is awaited
    /// and within the timeout; a network error in that time, and silence
    /// until the deadline, are two distinct failures.
    pub fn disconnect<E>(&self, state: LogoffState, event: LogoffEvent<E>) -> (step: (
        LogoffState,
        LogoffAction<E>,
    ))
        ensures
            step.0 == logoff_next(state, event),
            step.1 == logoff_action(state, event),
    {
        match state {
            LogoffState::Idle => match event {
                LogoffEvent::Begin => (LogoffState::Sending, LogoffAction::SendLogoff),
                _ => (LogoffState::Idle, LogoffAction::Nothing),
            },
            LogoffState::Sending => match event {
                LogoffEvent::Sent => (
                    LogoffState::AwaitingAck,
                    LogoffAction::AwaitAck { timeout_ms: LOGOFF_TIMEOUT_MS },
                ),
                LogoffEvent::SendFailed(error) => (
                    LogoffState::Closed,
                    LogoffAction::Finish(Err(DisconnectError::Send(error))),
                ),
                _ => (LogoffState::Sending, LogoffAction::Nothing),
            },
            LogoffState::AwaitingAck => match event {
                LogoffEvent::Acknowledged { eresult, elapsed_ms } => {
                    if elapsed_ms <= LOGOFF_TIMEOUT_MS {
                        (LogoffState::Closed, LogoffAction::Finish(Ok(eresult)))
                    } else {
                        (
                            LogoffState::Closed,
                            LogoffAction::Finish(Err(DisconnectError::NoResponse)),
                        )
                    }
                },
                LogoffEvent::NetworkFailed { error, elapsed_ms } => {
                    if elapsed_ms <= LOGOFF_TIMEOUT_MS {
                        (
                            LogoffState::Closed,
                            LogoffAction::Finish(Err(DisconnectError::Network(error))),
                        )
                    } else {
                        (
                            LogoffState::Closed,
                            LogoffAction::Finish(Err(DisconnectError::NoResponse)),
                        )
                    }
                },
                LogoffEvent::DeadlineElapsed => (
                    LogoffState::Closed,
                    LogoffAction::Finish(Err(DisconnectError::NoResponse)),
                ),
                _ => (LogoffState::AwaitingAck, LogoffAction::Nothing),
            },
            LogoffState::Closed => (LogoffState::Closed, LogoffAction::Nothing),
        }
    }
}

/// The result code of `event` if it is an acknowledgment that arrived
/// within the timeout.
pub open spec fn timely_ack<E>(event: LogoffEvent<E>) -> Option<i32> {
    match event {
        LogoffEvent::Acknowledged { eresult, elapsed_ms } => if within_timeout(elapsed_ms) {
            Some(eresult)
        } else {
            None
        },
        _ => None,
    }
}

/// A shutdown succeeds in one case only: an acknowledgment is reported
/// while it is awaited, and it arrived within the timeout. The success
/// carries the acknowledgment's result code.
pub proof fn law_success_needs_timely_ack<E>(state: LogoffState, event: LogoffEvent<E>, code: i32)
    ensures
        logoff_action(state, event) == LogoffAction::<E>::Finish(Ok(code)) <==> state
            is AwaitingAck && timely_ack(event) == Some(code),
{
}

/// Whatever ends the wait after the deadline, an acknowledgment included,
/// and the deadline itself, make the shutdown fail for want of a response.
pub proof fn law_deadline_means_no_response<E>(event: LogoffEvent<E>)
    requires
        event is DeadlineElapsed || (event matches LogoffEvent::Acknowledged { elapsed_ms, .. }
            && elapsed_ms > LOGOFF_TIMEOUT_MS) || (event matches LogoffEvent::NetworkFailed {
            elapsed_ms,
            ..
        } && elapsed_ms > LOGOFF_TIMEOUT_MS),
    ensures
        logoff_action(LogoffState::AwaitingAck, event) == LogoffAction::<E>::Finish(
            Err(DisconnectError::NoResponse),
        ),
        logoff_next(LogoffState::AwaitingAck, event) == LogoffState::Closed,
{
}

/// Once closed, a shutdown stays closed and asks for nothing more: what
/// arrives after the end changes no result.
pub proof fn law_closed_absorbs<E>(event: LogoffEvent<E>)
    ensures
        logoff_next(LogoffState::Closed, event) == LogoffState::Closed,
        logoff_action(LogoffState::Closed, event) == LogoffAction::<E>::Nothing,
{
}

} // verus!
