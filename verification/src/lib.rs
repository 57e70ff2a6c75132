//! Sans-I/O core of a game-coordinator session worker.
//!
//! The worker keeps a session with a remote game coordinator over an
//! already-authenticated transport connection. Everything that touches the
//! network or the clock lives with the caller; this crate holds the decisions:
//! what to send next, how long to wait, when to give up, and how a reply is
//! classified. Each decision is a function from the current state and the
//! event that just happened to the next state and the action to perform.
//!
//! - [`startup`]: the bootstrap handshake and the keepalive loop.
//! - [`invoke`]: one remote call with bounded retries on transport errors.
//! - [`fetch`]: classifying a match-metadata reply, and when to fetch again.
//! - [`batch`]: the operator's order and the walk through its matches.
//! - [`observer`]: the loop draining connection-status notifications.
//! - [`shutdown`]: logoff and the bounded wait for its acknowledgment.

pub mod session;
pub mod startup;
pub mod invoke;
pub mod fetch;
pub mod batch;
pub mod observer;
pub mod shutdown;

pub use batch::{Args, Batch};
pub use fetch::{
    fetch_match, FetchFailure, MatchMetaData, ResultCode, RetryDecision, RetryPolicy, SaltRecord,
};
pub use invoke::InvokeStep;
pub use session::{BotConfig, BotConn, InvokePayload, JobCall};
pub use shutdown::{DisconnectError, LogoffAction, LogoffEvent, LogoffState};
pub use startup::{
    create_bot, deadlock_startup_seq, HandshakeOutcome, StartupAction, StartupEvent, StartupState,
};
