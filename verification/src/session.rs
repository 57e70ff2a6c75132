//! The session and the requests issued on it.

use vstd::prelude::*;

verus! {

/// Credentials the transport logs in with.
#[derive(Debug)]
pub struct BotConfig {
    pub username: String,
    pub password: String,
}

/// Credentials as plain values.
pub struct BotConfigView {
    pub username: Seq<char>,
    pub password: Seq<char>,
}

impl View for BotConfig {
    type V = BotConfigView;

    open spec fn view(&self) -> BotConfigView {
        BotConfigView { username: self.username@, password: self.password@ }
    }
}

impl Clone for BotConfig {
    fn clone(&self) -> (res: Self)
        ensures
            res@ == self@,
    {
        BotConfig { username: self.username.clone(), password: self.password.clone() }
    }
}

impl Default for BotConfig {
    fn default() -> (res: Self)
        ensures
            res@ == (BotConfigView { username: Seq::empty(), password: Seq::empty() }),
    {
        BotConfig { username: String::new(), password: String::new() }
    }
}

/// One remote call: a message-kind tag and an opaque body.
#[derive(Debug)]
pub struct InvokePayload {
    pub kind: i32,
    pub data: Vec<u8>,
}

/// A remote call as plain values.
pub struct InvokePayloadView {
    pub kind: i32,
    pub data: Seq<u8>,
}

impl View for InvokePayload {
    type V = InvokePayloadView;

    open spec fn view(&self) -> InvokePayloadView {
        InvokePayloadView { kind: self.kind, data: self.data@ }
    }
}

impl Clone for InvokePayload {
    fn clone(&self) -> (res: Self)
        ensures
            res@ == self@,
    {
        InvokePayload { kind: self.kind, data: self.data.clone() }
    }
}

/// A job call ready to go out on the coordinator channel: the body is sent
/// under `kind` and the channel awaits the reply correlated with it.
#[derive(Debug)]
pub struct JobCall {
    pub kind: i32,
    pub data: Vec<u8>,
    pub needs_ack: bool,
}

/// A job call as plain values.
pub struct JobCallView {
    pub kind: i32,
    pub data: Seq<u8>,
    pub needs_ack: bool,
}

impl View for JobCall {
    type V = JobCallView;

    open spec fn view(&self) -> JobCallView {
        JobCallView { kind: self.kind, data: self.data@, needs_ack: self.needs_ack }
    }
}

/// A session whose bootstrap ended in `Ready`.
///
/// The only way to get one is [`create_bot`](crate::startup::create_bot), so
/// no request can be prepared before the handshake has succeeded.
#[derive(Debug)]
pub struct BotConn {
    app_id: u32,
    pub bot_name: String,
}

/// What a session is, as plain values.
pub struct BotConnView {
    /// The coordinator application the session is addressed to.
    pub app_id: u32,
    /// The identity label that results are attributed to.
    pub bot_name: Seq<char>,
}

impl View for BotConn {
    type V = BotConnView;

    closed spec fn view(&self) -> BotConnView {
        BotConnView { app_id: self.app_id, bot_name: self.bot_name@ }
    }
}

impl BotConn {
    pub(crate) fn open(app_id: u32, bot_name: String) -> (bot: BotConn)
        ensures
            bot@ == (BotConnView { app_id, bot_name: bot_name@ }),
    {
        BotConn { app_id, bot_name }
    }

    /// The coordinator application the session is addressed to.
    pub fn app_id(&self) -> (id: u32)
        ensures
            id == self@.app_id,
    {
        self.app_id
    }

    /// The identity label that results are attributed to.
    pub fn name(&self) -> (name: &String)
        ensures
            name@ == self@.bot_name,
    {
        &self.bot_name
    }

    /// Prepares one job call: the payload goes out verbatim under its own
    /// kind, and a correlated reply is awaited.
    pub fn invoke(&self, payload: InvokePayload) -> (job: JobCall)
        ensures
            job@ == (JobCallView { kind: payload.kind, data: payload.data@, needs_ack: true }),
    {
        JobCall { kind: payload.kind, data: payload.data, needs_ack: true }
    }
}

} // verus!
