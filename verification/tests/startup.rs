use gc_session::session::BotConfig;
use gc_session::startup::{
    create_bot, deadlock_startup_seq, heartbeat, keepalive, BootstrapError, HandshakeOutcome, HeartbeatAction,
    HeartbeatEvent, StartupAction, StartupEvent, StartupFailure, StartupState, ANNOUNCE_GRACE_SECS,
    APP_ID, HEARTBEAT_INTERVAL_SECS, HEARTBEAT_KIND, STARTUP_TIMEOUT_SECS, TRANSPORT_TIMEOUT_SECS,
};

type State = StartupState<&'static str>;
type Event = StartupEvent<&'static str>;

fn run(mut state: State, events: Vec<Event>) -> State {
    for event in events {
        state = deadlock_startup_seq(state, event).0;
    }
    state
}

fn racing() -> State {
    run(
        State::start(),
        vec![Event::ChannelOpened, Event::Announced, Event::GraceElapsed],
    )
}

fn config(name: &str) -> BotConfig {
    BotConfig { username: name.to_string(), password: "secret".to_string() }
}

#[test]
fn constants_have_the_configured_values() {
    assert_eq!(APP_ID, 1422450);
    assert_eq!(ANNOUNCE_GRACE_SECS, 2);
    assert_eq!(STARTUP_TIMEOUT_SECS, 60);
    assert_eq!(HEARTBEAT_KIND, 4006);
    assert_eq!(HEARTBEAT_INTERVAL_SECS, 5);
    assert_eq!(TRANSPORT_TIMEOUT_SECS, 20);
}

#[test]
fn bootstrap_starts_in_connecting() {
    assert_eq!(State::start(), StartupState::Connecting);
    assert_eq!(State::start().outcome(), None);
}

#[test]
fn channel_opened_asks_for_the_announcement() {
    let (state, action) = deadlock_startup_seq(State::start(), Event::ChannelOpened);
    assert_eq!(state, StartupState::Announcing { announced: false });
    assert_eq!(action, StartupAction::Announce { game_id: 1422450, deadline_secs: 60 });
}

#[test]
fn announcement_is_followed_by_the_grace_period() {
    let state = run(State::start(), vec![Event::ChannelOpened]);
    let (state, action) = deadlock_startup_seq(state, Event::Announced);
    assert_eq!(state, StartupState::Announcing { announced: true });
    assert_eq!(action, StartupAction::Settle { secs: 2 });
}

#[test]
fn grace_period_is_followed_by_the_race() {
    let state = run(State::start(), vec![Event::ChannelOpened, Event::Announced]);
    let (state, action) = deadlock_startup_seq(state, Event::GraceElapsed);
    assert_eq!(state, StartupState::HandshakeRacing);
    assert_eq!(action, StartupAction::StartRace { heartbeat_kind: 4006, status_kind: 4009 });
}

#[test]
fn grace_elapsed_before_the_announcement_went_out_is_ignored() {
    let state = run(State::start(), vec![Event::ChannelOpened]);
    let (state, action) = deadlock_startup_seq(state, Event::GraceElapsed);
    assert_eq!(state, StartupState::Announcing { announced: false });
    assert_eq!(action, StartupAction::Nothing);
}

#[test]
fn failed_announcement_is_fatal() {
    let state = run(State::start(), vec![Event::ChannelOpened]);
    let (state, action) = deadlock_startup_seq(state, Event::AnnounceFailed("broken pipe"));
    assert_eq!(state, StartupState::Failed(StartupFailure::Announce("broken pipe")));
    assert_eq!(action, StartupAction::Conclude);
    assert_eq!(
        state.outcome(),
        Some(HandshakeOutcome::Failed(StartupFailure::Announce("broken pipe")))
    );
}

#[test]
fn ready_signal_decides_the_race() {
    let (state, action) = deadlock_startup_seq(racing(), Event::ReadySignal);
    assert_eq!(state, StartupState::Ready);
    assert_eq!(action, StartupAction::Conclude);
    assert_eq!(state.outcome(), Some(HandshakeOutcome::Ready));
}

#[test]
fn ready_signal_wins_after_any_number_of_heartbeats() {
    for beats in 0..40usize {
        let mut state = racing();
        for _ in 0..beats {
            let (next, action) = deadlock_startup_seq(state, Event::Heartbeat(HeartbeatEvent::Sent));
            assert_eq!(next, StartupState::HandshakeRacing);
            assert_eq!(action, StartupAction::AwaitHeartbeat { secs: 5 });
            let (next, action) = deadlock_startup_seq(next, Event::Heartbeat(HeartbeatEvent::Due));
            assert_eq!(next, StartupState::HandshakeRacing);
            assert_eq!(action, StartupAction::SendHeartbeat { kind: 4006 });
            state = next;
        }
        let (state, action) = deadlock_startup_seq(state, Event::ReadySignal);
        assert_eq!(state, StartupState::Ready);
        assert_eq!(action, StartupAction::Conclude);
    }
}

#[test]
fn no_event_but_the_ready_signal_leads_to_ready() {
    let others: Vec<fn() -> Event> = vec![
        || Event::ChannelOpened,
        || Event::Announced,
        || Event::AnnounceFailed("e"),
        || Event::GraceElapsed,
        || Event::Heartbeat(HeartbeatEvent::Due),
        || Event::Heartbeat(HeartbeatEvent::Sent),
        || Event::Heartbeat(HeartbeatEvent::Failed("e")),
        || Event::DeadlineElapsed,
    ];
    let starts: Vec<fn() -> State> = vec![
        || StartupState::Connecting,
        || StartupState::Announcing { announced: false },
        || StartupState::Announcing { announced: true },
        || StartupState::HandshakeRacing,
        || StartupState::TimedOut,
        || StartupState::Failed(StartupFailure::Heartbeat("e")),
    ];
    for start in &starts {
        for first in &others {
            for second in &others {
                for third in &others {
                    let end = run(start(), vec![first(), second(), third()]);
                    assert_ne!(end, StartupState::Ready);
                }
            }
        }
    }
}

#[test]
fn ready_signal_before_the_race_is_ignored() {
    let (state, action) = deadlock_startup_seq(State::start(), Event::ReadySignal);
    assert_eq!(state, StartupState::Connecting);
    assert_eq!(action, StartupAction::Nothing);
    let announcing = run(State::start(), vec![Event::ChannelOpened, Event::Announced]);
    let (state, action) = deadlock_startup_seq(announcing, Event::ReadySignal);
    assert_eq!(state, StartupState::Announcing { announced: true });
    assert_eq!(action, StartupAction::Nothing);
}

#[test]
fn failed_heartbeat_decides_the_race_as_failed() {
    let state = run(racing(), vec![Event::Heartbeat(HeartbeatEvent::Sent)]);
    let (state, action) =
        deadlock_startup_seq(state, Event::Heartbeat(HeartbeatEvent::Failed("connection reset")));
    assert_eq!(state, StartupState::Failed(StartupFailure::Heartbeat("connection reset")));
    assert_eq!(action, StartupAction::Conclude);
}

#[test]
fn deadline_times_out_the_announcement_and_the_race() {
    let announcing = run(State::start(), vec![Event::ChannelOpened]);
    let (state, action) = deadlock_startup_seq(announcing, Event::DeadlineElapsed);
    assert_eq!(state, StartupState::TimedOut);
    assert_eq!(action, StartupAction::Conclude);

    let settling = run(State::start(), vec![Event::ChannelOpened, Event::Announced]);
    assert_eq!(deadlock_startup_seq(settling, Event::DeadlineElapsed).0, StartupState::TimedOut);

    let (state, action) = deadlock_startup_seq(racing(), Event::DeadlineElapsed);
    assert_eq!(state, StartupState::TimedOut);
    assert_eq!(action, StartupAction::Conclude);
    assert_eq!(state.outcome(), Some(HandshakeOutcome::TimedOut));
}

#[test]
fn deadline_means_nothing_while_connecting() {
    let (state, action) = deadlock_startup_seq(State::start(), Event::DeadlineElapsed);
    assert_eq!(state, StartupState::Connecting);
    assert_eq!(action, StartupAction::Nothing);
}

#[test]
fn terminal_states_absorb_every_event() {
    let (state, action) = deadlock_startup_seq(StartupState::Ready, Event::DeadlineElapsed);
    assert_eq!(state, StartupState::Ready);
    assert_eq!(action, StartupAction::Nothing);
    let (state, action) = deadlock_startup_seq(
        StartupState::Ready,
        Event::Heartbeat(HeartbeatEvent::Failed("late")),
    );
    assert_eq!(state, StartupState::Ready);
    assert_eq!(action, StartupAction::Nothing);
    let (state, action) = deadlock_startup_seq(State::TimedOut, Event::ReadySignal);
    assert_eq!(state, StartupState::TimedOut);
    assert_eq!(action, StartupAction::Nothing);
    let failed: State = StartupState::Failed(StartupFailure::Announce("e"));
    let (state, action) = deadlock_startup_seq(failed, Event::ReadySignal);
    assert_eq!(state, StartupState::Failed(StartupFailure::Announce("e")));
    assert_eq!(action, StartupAction::Nothing);
}

#[test]
fn heartbeat_loop_sends_sleeps_and_stops_on_error() {
    assert_eq!(heartbeat::<&str>(HeartbeatEvent::Due), HeartbeatAction::Send { kind: 4006 });
    assert_eq!(heartbeat::<&str>(HeartbeatEvent::Sent), HeartbeatAction::Sleep { secs: 5 });
    assert_eq!(heartbeat(HeartbeatEvent::Failed("eof")), HeartbeatAction::Stop("eof"));
}

#[test]
fn ready_outcome_yields_a_session_named_after_the_user() {
    let bot = create_bot::<&str>(&config("salty"), HandshakeOutcome::Ready).unwrap();
    assert_eq!(bot.bot_name, "salty");
    assert_eq!(bot.name(), "salty");
    assert_eq!(bot.app_id(), 1422450);
}

#[test]
fn timed_out_outcome_yields_no_session() {
    let res = create_bot::<&str>(&config("salty"), HandshakeOutcome::TimedOut);
    assert_eq!(res.unwrap_err(), BootstrapError::TimedOut);
}

#[test]
fn failed_outcome_yields_no_session_and_keeps_the_cause() {
    let res = create_bot(
        &config("salty"),
        HandshakeOutcome::Failed(StartupFailure::Heartbeat("connection reset")),
    );
    assert_eq!(
        res.unwrap_err(),
        BootstrapError::Failed(StartupFailure::Heartbeat("connection reset"))
    );
    let res = create_bot(&config("salty"), HandshakeOutcome::Failed(StartupFailure::Announce(7)));
    assert_eq!(res.unwrap_err(), BootstrapError::Failed(StartupFailure::Announce(7)));
}

#[test]
fn keepalive_has_its_kind_and_no_content() {
    let message = keepalive();
    assert_eq!(message.kind, 4006);
    assert!(message.data.is_empty());
}
