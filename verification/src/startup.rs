//! Session bootstrap: the handshake that turns a freshly opened coordinator
//! channel into a usable session.
//!
//! The caller opens the transport connection and the coordinator channel,
//! then feeds every observation to [`deadlock_startup_seq`] and performs the
//! action it answers with. The machine announces the client, lets the
//! announcement settle, and then races the wait for the coordinator's ready
//! signal against the keepalive loop, all under one deadline.

use vstd::prelude::*;
use crate::observer::CONNECTION_STATUS_KIND;
use crate::session::{BotConfig, BotConn, BotConnView, InvokePayload, InvokePayloadView};

verus! {

/// The coordinator application this worker talks to.
pub const APP_ID: u32 = 1422450;

/// Seconds a single job call on the transport may take; the caller sets
/// this on the connection before the channel is opened.
pub const TRANSPORT_TIMEOUT_SECS: u64 = 20;

/// Seconds the remote side is given to register the announcement.
pub const ANNOUNCE_GRACE_SECS: u64 = 2;

/// Upper bound, in seconds, on the announcement and the race together.
pub const STARTUP_TIMEOUT_SECS: u64 = 60;

/// Message kind of the keepalive.
pub const HEARTBEAT_KIND: i32 = 4006;

/// Seconds between two keepalives.
pub const HEARTBEAT_INTERVAL_SECS: u64 = 5;

/// Which step of the bootstrap hit a transport error, and the error.
#[derive(Debug, PartialEq, Eq)]
pub enum StartupFailure<E> {
    /// The one-shot presence announcement could not be sent.
    Announce(E),
    /// A keepalive could not be sent while waiting for the ready signal.
    Heartbeat(E),
}

/// How a bootstrap ended.
#[derive(Debug, PartialEq, Eq)]
pub enum HandshakeOutcome<E> {
    Ready,
    TimedOut,
    Failed(StartupFailure<E>),
}

/// Where the bootstrap stands.
#[derive(Debug, PartialEq, Eq)]
pub enum StartupState<E> {
    /// Transport connection and coordinator channel are being set up.
    Connecting,
    /// The announcement is in flight (`announced == false`) or has been sent
    /// and is settling (`announced == true`).
    Announcing { announced: bool },
    /// Waiting for the ready signal while keepalives go out.
    HandshakeRacing,
    Ready,
    Failed(StartupFailure<E>),
    TimedOut,
}

/// What the keepalive loop has just seen.
#[derive(Debug, PartialEq, Eq)]
pub enum HeartbeatEvent<E> {
    /// The interval is over; a keepalive is due.
    Due,
    /// The last keepalive went out.
    Sent,
    /// The last keepalive could not be sent.
    Failed(E),
}

/// What the keepalive loop does next.
#[derive(Debug, PartialEq, Eq)]
pub enum HeartbeatAction<E> {
    /// Send an empty message of this kind, then report `Sent` or `Failed`.
    Send { kind: i32 },
    /// Sleep this long, then report `Due`.
    Sleep { secs: u64 },
    /// The loop is over; this is the error that ended it.
    Stop(E),
}

/// What the bootstrap has just seen.
#[derive(Debug, PartialEq, Eq)]
pub enum StartupEvent<E> {
    /// Both the transport connection and the coordinator channel exist.
    ChannelOpened,
    /// The presence announcement went out.
    Announced,
    /// The presence announcement could not be sent.
    AnnounceFailed(E),
    /// The grace period after the announcement is over.
    GraceElapsed,
    /// The coordinator's ready signal arrived.
    ReadySignal,
    /// Something happened in the keepalive loop.
    Heartbeat(HeartbeatEvent<E>),
    /// The overall deadline passed.
    DeadlineElapsed,
}

/// What the caller has to do after an event.
#[derive(Debug, Clone, Copy, PartialEq, Eq)]
pub enum StartupAction {
    /// Announce that the client plays `game_id`, report `Announced` or
    /// `AnnounceFailed`, and report `DeadlineElapsed` once `deadline_secs`
    /// have passed without the bootstrap having ended.
    Announce { game_id: u64, deadline_secs: u64 },
    /// Sleep this long, then report `GraceElapsed`.
    Settle { secs: u64 },
    /// Subscribe to the ready signal, detach the connection-status observer
    /// on notifications of kind `status_kind`, and send the first keepalive,
    /// a message of kind `heartbeat_kind`.
    StartRace { heartbeat_kind: i32, status_kind: i32 },
    /// Send a keepalive of this kind.
    SendHeartbeat { kind: i32 },
    /// Sleep this long, then report that a keepalive is due.
    AwaitHeartbeat { secs: u64 },
    /// The bootstrap is over; drop whatever is still pending.
    Conclude,
    /// The event means nothing in this state.
    Nothing,
}

impl<E> StartupState<E> {
    /// A state that no event leaves.
    pub open spec fn is_terminal(self) -> bool {
        self is Ready || self is Failed || self is TimedOut
    }

    /// The deadline is running: announcing or racing.
    pub open spec fn in_handshake(self) -> bool {
        self is Announcing || self is HandshakeRacing
    }

    /// The outcome a terminal state stands for.
    pub open spec fn spec_outcome(self) -> Option<HandshakeOutcome<E>> {
        match self {
            StartupState::Ready => Some(HandshakeOutcome::Ready),
            StartupState::TimedOut => Some(HandshakeOutcome::TimedOut),
            StartupState::Failed(failure) => Some(HandshakeOutcome::Failed(failure)),
            _ => None,
        }
    }

    /// The state a bootstrap starts in.
    pub fn start() -> (state: Self)
        ensures
            state == StartupState::<E>::Connecting,
    {
        StartupState::Connecting
    }

    /// The outcome, once the bootstrap has ended.
    pub fn outcome(self) -> (res: Option<HandshakeOutcome<E>>)
        ensures
            res == self.spec_outcome(),
            res is Some <==> self.is_terminal(),
    {
        match self {
            StartupState::Ready => Some(HandshakeOutcome::Ready),
            StartupState::TimedOut => Some(HandshakeOutcome::TimedOut),
            StartupState::Failed(failure) => Some(HandshakeOutcome::Failed(failure)),
            _ => None,
        }
    }
}

/// The keepalive: a message without content under [`HEARTBEAT_KIND`].
pub fn keepalive() -> (message: InvokePayload)
    ensures
        message@ == (InvokePayloadView { kind: HEARTBEAT_KIND, data: Seq::empty() }),
{
    InvokePayload { kind: HEARTBEAT_KIND, data: Vec::new() }
}

/// The keepalive loop as a function: a due keepalive is sent, a sent one is
/// followed by the interval, a failed one ends the loop with its error.
pub open spec fn heartbeat_next<E>(event: HeartbeatEvent<E>) -> HeartbeatAction<E> {
    match event {
        HeartbeatEvent::Due => HeartbeatAction::Send { kind: HEARTBEAT_KIND },
        HeartbeatEvent::Sent => HeartbeatAction::Sleep { secs: HEARTBEAT_INTERVAL_SECS },
        HeartbeatEvent::Failed(error) => HeartbeatAction::Stop(error),
    }
}

/// One turn of the keepalive loop. The loop never ends by itself: only a
/// failed send stops it.
pub fn heartbeat<E>(event: HeartbeatEvent<E>) -> (action: HeartbeatAction<E>)
    ensures
        action == heartbeat_next(event),
        action is Stop <==> event is Failed,
{
    match event {
        HeartbeatEvent::Due => HeartbeatAction::Send { kind: HEARTBEAT_KIND },
        HeartbeatEvent::Sent => HeartbeatAction::Sleep { secs: HEARTBEAT_INTERVAL_SECS },
        HeartbeatEvent::Failed(error) => HeartbeatAction::Stop(error),
    }
}

/// The state that follows `state` when `event` is seen.
pub open spec fn startup_next<E>(state: StartupState<E>, event: StartupEvent<E>) -> StartupState<
    E,
> {
    match (state, event) {
        (StartupState::Connecting, StartupEvent::ChannelOpened) => StartupState::Announcing {
            announced: false,
        },
        (StartupState::Announcing { announced: false }, StartupEvent::Announced) => {
            StartupState::Announcing { announced: true }
        },
        (StartupState::Announcing { announced: false }, StartupEvent::AnnounceFailed(error)) => {
            StartupState::Failed(StartupFailure::Announce(error))
        },
        (StartupState::Announcing { announced: true }, StartupEvent::GraceElapsed) => {
            StartupState::HandshakeRacing
        },
        (StartupState::HandshakeRacing, StartupEvent::ReadySignal) => StartupState::Ready,
        (StartupState::HandshakeRacing, StartupEvent::Heartbeat(HeartbeatEvent::Failed(error))) => {
            StartupState::Failed(StartupFailure::Heartbeat(error))
        },
        (StartupState::Announcing { .. }, StartupEvent::DeadlineElapsed) => StartupState::TimedOut,
        (StartupState::HandshakeRacing, StartupEvent::DeadlineElapsed) => StartupState::TimedOut,
        (state, _) => state,
    }
}

/// The action that `event` calls for when it is seen in `state`.
pub open spec fn startup_action<E>(state: StartupState<E>, event: StartupEvent<E>) -> StartupAction {
    match (state, event) {
        (StartupState::Connecting, StartupEvent::ChannelOpened) => StartupAction::Announce {
            game_id: APP_ID as u64,
            deadline_secs: STARTUP_TIMEOUT_SECS,
        },
        (StartupState::Announcing { announced: false }, StartupEvent::Announced) => {
            StartupAction::Settle { secs: ANNOUNCE_GRACE_SECS }
        },
        (StartupState::Announcing { announced: false }, StartupEvent::AnnounceFailed(_)) => {
            StartupAction::Conclude
        },
        (StartupState::Announcing { announced: true }, StartupEvent::GraceElapsed) => {
            StartupAction::StartRace {
                heartbeat_kind: HEARTBEAT_KIND,
                status_kind: CONNECTION_STATUS_KIND,
            }
        },
        (StartupState::HandshakeRacing, StartupEvent::ReadySignal) => StartupAction::Conclude,
        (StartupState::HandshakeRacing, StartupEvent::Heartbeat(beat)) => {
            match heartbeat_next(beat) {
                HeartbeatAction::Send { kind } => StartupAction::SendHeartbeat { kind },
                HeartbeatAction::Sleep { secs } => StartupAction::AwaitHeartbeat { secs },
                HeartbeatAction::Stop(_) => StartupAction::Conclude,
            }
        },
        (StartupState::Announcing { .. }, StartupEvent::DeadlineElapsed) => StartupAction::Conclude,
        (StartupState::HandshakeRacing, StartupEvent::DeadlineElapsed) => StartupAction::Conclude,
        (_, _) => StartupAction::Nothing,
    }
}

/// The state reached from `state` after `events`, in order.
pub open spec fn startup_run<E>(state: StartupState<E>, events: Seq<StartupEvent<E>>) -> StartupState<
    E,
>
    decreases events.len(),
{
    if events.len() == 0 {
        state
    } else {
        startup_run(startup_next(state, events[0]), events.drop_first())
    }
}

/// One step of the bootstrap state machine.
///
/// Takes the current state and the event just observed and answers with the
/// next state and the action to perform. Events that make no sense in the
/// current state leave it unchanged and ask for nothing; terminal states
/// absorb every event.
pub fn deadlock_startup_seq<E>(state: StartupState<E>, event: StartupEvent<E>) -> (step: (
    StartupState<E>,
    StartupAction,
))
    ensures
        step.0 == startup_next(state, event),
        step.1 == startup_action(state, event),
{
    match state {
        StartupState::Connecting => match event {
            StartupEvent::ChannelOpened => (
                StartupState::Announcing { announced: false },
                StartupAction::Announce {
                    game_id: APP_ID as u64,
                    deadline_secs: STARTUP_TIMEOUT_SECS,
                },
            ),
            _ => (StartupState::Connecting, StartupAction::Nothing),
        },
        StartupState::Announcing { announced } => match event {
            StartupEvent::DeadlineElapsed => (StartupState::TimedOut, StartupAction::Conclude),
            StartupEvent::Announced => {
                if announced {
                    (StartupState::Announcing { announced }, StartupAction::Nothing)
                } else {
                    (
                        StartupState::Announcing { announced: true },
                        StartupAction::Settle { secs: ANNOUNCE_GRACE_SECS },
                    )
                }
            },
            StartupEvent::AnnounceFailed(error) => {
                if announced {
                    (StartupState::Announcing { announced }, StartupAction::Nothing)
                } else {
                    (
                        StartupState::Failed(StartupFailure::Announce(error)),
                        StartupAction::Conclude,
                    )
                }
            },
            StartupEvent::GraceElapsed => {
                if announced {
                    (
                        StartupState::HandshakeRacing,
                        StartupAction::StartRace {
                            heartbeat_kind: HEARTBEAT_KIND,
                            status_kind: CONNECTION_STATUS_KIND,
                        },
                    )
                } else {
                    (StartupState::Announcing { announced }, StartupAction::Nothing)
                }
            },
            _ => (StartupState::Announcing { announced }, StartupAction::Nothing),
        },
        StartupState::HandshakeRacing => match event {
            StartupEvent::ReadySignal => (StartupState::Ready, StartupAction::Conclude),
            StartupEvent::DeadlineElapsed => (StartupState::TimedOut, StartupAction::Conclude),
            StartupEvent::Heartbeat(beat) => match heartbeat(beat) {
                HeartbeatAction::Send { kind } => (
                    StartupState::HandshakeRacing,
                    StartupAction::SendHeartbeat { kind },
                ),
                HeartbeatAction::Sleep { secs } => (
                    StartupState::HandshakeRacing,
                    StartupAction::AwaitHeartbeat { secs },
                ),
                HeartbeatAction::Stop(error) => (
                    StartupState::Failed(StartupFailure::Heartbeat(error)),
                    StartupAction::Conclude,
                ),
            },
            _ => (StartupState::HandshakeRacing, StartupAction::Nothing),
        },
        StartupState::Ready => (StartupState::Ready, StartupAction::Nothing),
        StartupState::Failed(failure) => (StartupState::Failed(failure), StartupAction::Nothing),
        StartupState::TimedOut => (StartupState::TimedOut, StartupAction::Nothing),
    }
}

/// A keepalive event that does not end the keepalive loop.
pub open spec fn is_live_heartbeat<E>(event: StartupEvent<E>) -> bool {
    event matches StartupEvent::Heartbeat(beat) && !(beat is Failed)
}

/// `Ready` is entered in exactly one way: by the ready signal arriving while
/// the race is on.
pub proof fn law_ready_only_by_signal<E>(state: StartupState<E>, event: StartupEvent<E>)
    ensures
        startup_next(state, event) is Ready <==> state is Ready || (state is HandshakeRacing
            && event is ReadySignal),
{
}

/// Terminal states absorb every event and ask for nothing.
pub proof fn law_terminal_absorbs<E>(state: StartupState<E>, events: Seq<StartupEvent<E>>)
    requires
        state.is_terminal(),
    ensures
        startup_run(state, events) == state,
        events.len() > 0 ==> startup_action(state, events[0]) == StartupAction::Nothing,
    decreases events.len(),
{
    if events.len() > 0 {
        law_terminal_absorbs(startup_next(state, events[0]), events.drop_first());
    }
}

/// While the race is on, the ready signal decides it at once: whatever number
/// of keepalives were sent and waited for before, the state after the signal
/// is `Ready`.
pub proof fn law_ready_signal_wins<E>(beats: Seq<StartupEvent<E>>)
    requires
        forall|i: int| 0 <= i < beats.len() ==> is_live_heartbeat(#[trigger] beats[i]),
    ensures
        startup_run(StartupState::HandshakeRacing, beats) == StartupState::<E>::HandshakeRacing,
        startup_run(StartupState::HandshakeRacing, beats.push(StartupEvent::ReadySignal))
            == StartupState::<E>::Ready,
    decreases beats.len(),
{
    let signal = StartupEvent::<E>::ReadySignal;
    let racing = StartupState::<E>::HandshakeRacing;
    reveal_with_fuel(startup_run, 2);
    if beats.len() == 0 {
        assert(beats.push(signal).drop_first() =~= Seq::empty());
    } else {
        assert(is_live_heartbeat(beats[0]));
        assert(startup_next(racing, beats[0]) == racing);
        assert(beats.push(signal).drop_first() =~= beats.drop_first().push(signal));
        law_ready_signal_wins(beats.drop_first());
    }
}

/// The bootstrap never reports `Ready` before the ready signal has arrived:
/// from a state that is not `Ready`, no sequence of events without the signal
/// leads to `Ready`.
pub proof fn law_no_ready_without_signal<E>(state: StartupState<E>, events: Seq<StartupEvent<E>>)
    requires
        !(state is Ready),
        forall|i: int| 0 <= i < events.len() ==> !(#[trigger] events[i] is ReadySignal),
    ensures
        !(startup_run(state, events) is Ready),
    decreases events.len(),
{
    if events.len() > 0 {
        assert(!(events[0] is ReadySignal));
        law_ready_only_by_signal(state, events[0]);
        law_no_ready_without_signal(startup_next(state, events[0]), events.drop_first());
    }
}

/// The deadline ends a running handshake as `TimedOut`, whatever came before.
pub proof fn law_deadline_times_out<E>(state: StartupState<E>)
    requires
        state.in_handshake(),
    ensures
        startup_next(state, StartupEvent::DeadlineElapsed) == StartupState::<E>::TimedOut,
{
}

/// Why no session came out of a bootstrap.
#[derive(Debug, PartialEq, Eq)]
pub enum BootstrapError<E> {
    /// The deadline passed before the race was decided.
    TimedOut,
    /// A transport error ended the bootstrap.
    Failed(StartupFailure<E>),
}

/// Turns the outcome of a bootstrap into a session.
///
/// Only `Ready` yields a session; it is addressed to [`APP_ID`] and carries
/// the configured user name as its identity label. `TimedOut` and `Failed`
/// are both fatal: the caller gets the error and no session.
pub fn create_bot<E>(cfg: &BotConfig, outcome: HandshakeOutcome<E>) -> (res: Result<
    BotConn,
    BootstrapError<E>,
>)
    ensures
        match outcome {
            HandshakeOutcome::Ready => res matches Ok(bot) && bot@ == (BotConnView {
                app_id: APP_ID,
                bot_name: cfg.username@,
            }),
            HandshakeOutcome::TimedOut => res == Err::<BotConn, _>(BootstrapError::<E>::TimedOut),
            HandshakeOutcome::Failed(failure) => res == Err::<BotConn, _>(
                BootstrapError::Failed(failure),
            ),
        },
{
    match outcome {
        HandshakeOutcome::Ready => Ok(BotConn::open(APP_ID, cfg.username.clone())),
        HandshakeOutcome::TimedOut => Err(BootstrapError::TimedOut),
        HandshakeOutcome::Failed(failure) => Err(BootstrapError::Failed(failure)),
    }
}

} // verus!
