//! The connection-status observer: a background loop that drains the
//! coordinator's unsolicited status notifications.

use vstd::prelude::*;

verus! {

/// Message kind of the status notifications.
pub const CONNECTION_STATUS_KIND: i32 = 4009;

/// What the observer received.
#[derive(Debug, PartialEq, Eq)]
pub enum StatusEvent<S> {
    /// A notification that decoded to this status.
    Status(S),
    /// A notification that could not be decoded.
    Malformed,
    /// The subscription was closed.
    Closed,
}

/// What the observer does with it.
#[derive(Debug, PartialEq, Eq)]
pub enum StatusAction<S> {
    /// Take note of the status and receive the next notification.
    Record(S),
    /// Take note that a notification was invalid and receive the next one.
    Skip,
    /// Leave the loop quietly.
    Stop,
}

/// The observer's answer to `event`.
pub open spec fn status_next<S>(event: StatusEvent<S>) -> StatusAction<S> {
    match event {
        StatusEvent::Status(status) => StatusAction::Record(status),
        StatusEvent::Malformed => StatusAction::Skip,
        StatusEvent::Closed => StatusAction::Stop,
    }
}

/// One turn of the observer loop. A notification that does not decode never
/// ends the loop; only the end of the subscription does.
pub fn observe_status<S>(event: StatusEvent<S>) -> (action: StatusAction<S>)
    ensures
        action == status_next(event),
        action is Stop <==> event is Closed,
{
    match event {
        StatusEvent::Status(status) => StatusAction::Record(status),
        StatusEvent::Malformed => StatusAction::Skip,
        StatusEvent::Closed => StatusAction::Stop,
    }
}

} // verus!
