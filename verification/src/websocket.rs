//! The per-device session: its life cycle, its heartbeat, its rate limit
//! and what it makes of each frame from its peer.
use crate::publisher::{Connect, ConnectError, Disconnect, PublishMessage, RegisterTopics, Sender};
use crate::rate_limiter::{get_time_bucket, reading_bucket, RateLimit};
use vstd::prelude::*;

verus! {

/// `serde_json::Value`: the free-form payload of an event. The hub carries
/// it through and never looks inside.
#[verifier::external_type_specification]
#[verifier::external_body]
pub struct ExJsonValue(serde_json::Value);

/// Milliseconds between two heartbeat checks.
pub const HEARTBEAT_INTERVAL_MS: u64 = 5_000;

/// Milliseconds of silence from the peer after which the session is given
/// up.
pub const CLIENT_TIMEOUT_MS: u64 = 10_000;

/// What the close frame of a shutdown says.
pub open spec fn shutdown_notice() -> Seq<char> {
    "new server being deployed"@
}

/// An event as it travels through the hub.
pub struct Message {
    pub seconds_since_unix: u64,
    pub nano_seconds: u32,
    pub topics: Vec<String>,
    pub data: serde_json::Value,
}

/// What a text frame from a device can hold.
pub enum Event {
    Message { seconds_since_unix: u64, nano_seconds: u32, topics: Vec<String>, data: serde_json::Value },
    Register { topics: Vec<String> },
}

/// A frame from the peer. A text frame comes with what its body parsed to,
/// or with the parser's complaint.
pub enum Frame {
    Ping(Vec<u8>),
    Pong,
    Text(Result<Event, String>),
    Binary,
    Close,
    Other,
}

/// Where a session stands in its life.
#[derive(Clone, Copy, Debug, PartialEq, Eq, Structural)]
pub enum SessionState {
    Starting,
    Active,
    Closing,
    Closed,
}

/// Why the server closes a socket.
#[derive(Clone, Copy, Debug, PartialEq, Eq, Structural)]
pub enum CloseCode {
    Restart,
}

/// The content of a close frame.
pub struct CloseReason {
    pub code: CloseCode,
    pub description: Option<String>,
}

/// What a heartbeat check leads to.
#[derive(Clone, Copy, Debug, PartialEq, Eq, Structural)]
pub enum Heartbeat {
    /// The peer was heard in time: send a ping.
    Ping,
    /// The peer was silent for too long: stop.
    Timeout,
}

/// What the session does about a frame.
pub enum Reaction {
    /// Nothing: the frame is dropped.
    Ignore,
    /// Answer a ping with its own payload.
    Pong(Vec<u8>),
    /// Hand an event to the hub.
    Publish(PublishMessage),
    /// Hand a subscription to the hub.
    Register(RegisterTopics),
    /// Record that a text frame could not be read.
    LogError { device_id: String, device_type_id: String, error: String },
    /// The peer closed: stop.
    Stop,
}

/// One connected device.
pub struct WebSocket {
    account_id: String,
    device_id: String,
    device_type_id: String,
    hb: u64,
    rate_limit_struct: RateLimit,
    rate_limit: u64,
    state: SessionState,
}

/// The milliseconds from `earlier` to `now`; none if `now` is not later.
pub open spec fn elapsed(now_ms: u64, earlier_ms: u64) -> int {
    if now_ms >= earlier_ms {
        now_ms - earlier_ms
    } else {
        0
    }
}

impl WebSocket {
    pub closed spec fn account(self) -> Seq<char> {
        self.account_id@
    }

    pub closed spec fn device(self) -> Seq<char> {
        self.device_id@
    }

    pub closed spec fn device_type(self) -> Seq<char> {
        self.device_type_id@
    }

    /// When the peer was last heard, on the caller's monotonic clock.
    pub closed spec fn last_heard(self) -> u64 {
        self.hb
    }

    pub closed spec fn limiter(self) -> RateLimit {
        self.rate_limit_struct
    }

    /// The most text frames per minute that the session hands on.
    pub closed spec fn ceiling(self) -> u64 {
        self.rate_limit
    }

    pub closed spec fn phase(self) -> SessionState {
        self.state
    }

    /// Whether two sessions differ in nothing but what this one leaves
    /// out: the identity and the ceiling are the same.
    pub open spec fn same_identity(self, other: WebSocket) -> bool {
        &&& self.account() == other.account()
        &&& self.device() == other.device()
        &&& self.device_type() == other.device_type()
        &&& self.ceiling() == other.ceiling()
    }

    /// The publish command that this session makes of an event.
    pub open spec fn is_publish_of(
        self,
        command: PublishMessage,
        seconds_since_unix: u64,
        nano_seconds: u32,
        topics: Vec<String>,
        data: serde_json::Value,
    ) -> bool {
        &&& command.sender matches Sender::Device { device_id, device_type_id }
        &&& device_id@ == self.device()
        &&& device_type_id@ == self.device_type()
        &&& command.account_id@ == self.account()
        &&& command.message.seconds_since_unix == seconds_since_unix
        &&& command.message.nano_seconds == nano_seconds
        &&& command.message.topics == topics
        &&& command.message.data == data
    }

    /// What this session answers to a frame that reaches it while it is
    /// active and within its rate limit.
    pub open spec fn answers(self, frame: Frame, reaction: Reaction) -> bool {
        match frame {
            Frame::Ping(payload) => reaction == Reaction::Pong(payload),
            Frame::Pong => reaction is Ignore,
            Frame::Text(Ok(Event::Message { seconds_since_unix, nano_seconds, topics, data })) => {
                &&& reaction matches Reaction::Publish(command)
                &&& self.is_publish_of(command, seconds_since_unix, nano_seconds, topics, data)
            },
            Frame::Text(Ok(Event::Register { topics })) => {
                &&& reaction matches Reaction::Register(command)
                &&& command.account_id@ == self.account()
                &&& command.device_id@ == self.device()
                &&& command.topics == topics
            },
            Frame::Text(Err(complaint)) => {
                &&& reaction matches Reaction::LogError { device_id, device_type_id, error }
                &&& device_id@ == self.device()
                &&& device_type_id@ == self.device_type()
                &&& error == complaint
            },
            Frame::Binary => reaction is Ignore,
            Frame::Close => reaction is Stop,
            Frame::Other => reaction is Ignore,
        }
    }

    /// A session that has not started, last heard at `now_ms`, with an empty
    /// rate-limit window that begins at `bucket`.
    pub fn new_at(
        account_id: String,
        device_id: String,
        device_type_id: String,
        rate_limit: u64,
        now_ms: u64,
        bucket: u64,
    ) -> (session: Self)
        ensures
            session.account() == account_id@,
            session.device() == device_id@,
            session.device_type() == device_type_id@,
            session.ceiling() == rate_limit,
            session.last_heard() == now_ms,
            session.limiter() == (RateLimit { current_window: bucket, requests: 0 }),
            session.phase() == SessionState::Starting,
    {
        WebSocket {
            account_id,
            device_id,
            device_type_id,
            hb: now_ms,
            rate_limit_struct: RateLimit::starting_at(bucket),
            rate_limit,
            state: SessionState::Starting,
        }
    }

    /// A session that has not started, last heard at `now_ms`, with an empty
    /// rate-limit window for the present minute.
    pub fn new(
        account_id: String,
        device_id: String,
        device_type_id: String,
        rate_limit: u64,
        now_ms: u64,
    ) -> (session: Self)
        ensures
            session.account() == account_id@,
            session.device() == device_id@,
            session.device_type() == device_type_id@,
            session.ceiling() == rate_limit,
            session.last_heard() == now_ms,
            exists|now: std::time::SystemTime|
                session.limiter() == (RateLimit {
                    current_window: #[trigger] reading_bucket(now),
                    requests: 0,
                }),
            session.limiter().requests == 0,
            session.limiter().current_window % 60 == 0,
            session.phase() == SessionState::Starting,
    {
        WebSocket::new_at(account_id, device_id, device_type_id, rate_limit, now_ms, get_time_bucket())
    }

    /// Where the session stands in its life.
    pub fn state(&self) -> (state: SessionState)
        ensures
            state == self.phase(),
    {
        self.state
    }

    /// How many text frames the session counted in its present window.
    pub fn requests(&self) -> (count: u64)
        ensures
            count == self.limiter().requests,
    {
        self.rate_limit_struct.requests
    }

    /// Starts the session: it becomes active and asks the hub to admit it,
    /// to be reached by `addr`. A session that has started before stays as
    /// it is and asks again.
    pub fn started<H>(&mut self, addr: H) -> (command: Connect<H>)
        ensures
            command.account_id@ == old(self).account(),
            command.device_id@ == old(self).device(),
            command.device_type_id@ == old(self).device_type(),
            command.addr == addr,
            final(self).same_identity(*old(self)),
            final(self).last_heard() == old(self).last_heard(),
            final(self).limiter() == old(self).limiter(),
            final(self).phase() == if old(self).phase() == SessionState::Starting {
                SessionState::Active
            } else {
                old(self).phase()
            },
    {
        if self.state == SessionState::Starting {
            self.state = SessionState::Active;
        }
        Connect {
            account_id: self.account_id.clone(),
            device_type_id: self.device_type_id.clone(),
            device_id: self.device_id.clone(),
            addr,
        }
    }

    /// Takes the hub's answer to the connect command. A refusal turns a
    /// session that is starting or active to closing; tells whether the
    /// session goes on.
    pub fn connect_answered(&mut self, answer: &Result<(), ConnectError>) -> (admitted: bool)
        ensures
            admitted == (answer is Ok),
            final(self).same_identity(*old(self)),
            final(self).last_heard() == old(self).last_heard(),
            final(self).limiter() == old(self).limiter(),
            final(self).phase() == if answer is Err && (old(self).phase() == SessionState::Starting || old(
                self,
            ).phase() == SessionState::Active) {
                SessionState::Closing
            } else {
                old(self).phase()
            },
    {
        match answer {
            Ok(_) => true,
            Err(_) => {
                if self.state == SessionState::Starting || self.state == SessionState::Active {
                    self.state = SessionState::Closing;
                }
                false
            },
        }
    }

    /// The heartbeat check at `now_ms`. A peer that was silent for more
    /// than the timeout is given up: the session turns to closing, unless
    /// it is closed already. Otherwise a ping is due.
    pub fn hb(&mut self, now_ms: u64) -> (beat: Heartbeat)
        ensures
            final(self).same_identity(*old(self)),
            final(self).last_heard() == old(self).last_heard(),
            final(self).limiter() == old(self).limiter(),
            beat == if elapsed(now_ms, old(self).last_heard()) > CLIENT_TIMEOUT_MS {
                Heartbeat::Timeout
            } else {
                Heartbeat::Ping
            },
            final(self).phase() == if beat == Heartbeat::Timeout && old(self).phase()
                != SessionState::Closed {
                SessionState::Closing
            } else {
                old(self).phase()
            },
    {
        let silent = if now_ms >= self.hb {
            now_ms - self.hb
        } else {
            0
        };
        if silent > CLIENT_TIMEOUT_MS {
            if self.state != SessionState::Closed {
                self.state = SessionState::Closing;
            }
            Heartbeat::Timeout
        } else {
            Heartbeat::Ping
        }
    }

    /// Takes a frame from the peer at `now_ms`, while the clock of the
    /// rate limit stands in the minute that begins at `now_bucket`.
    ///
    /// Only an active session reads frames. A ping or a pong marks the
    /// peer as heard. A text frame is counted first; beyond the ceiling it
    /// is dropped without a word, within it an event goes to the hub and a
    /// frame that could not be read is logged. A close frame turns the
    /// session to closing.
    pub fn handle_at(&mut self, frame: Frame, now_ms: u64, now_bucket: u64) -> (reaction: Reaction)
        requires
            old(self).phase() == SessionState::Active && frame is Text ==> old(self).limiter().requests
                < u64::MAX,
        ensures
            final(self).same_identity(*old(self)),
            final(self).last_heard() == if old(self).phase() == SessionState::Active && (frame is Ping
                || frame is Pong) {
                now_ms
            } else {
                old(self).last_heard()
            },
            final(self).limiter() == if old(self).phase() == SessionState::Active && frame is Text {
                old(self).limiter().recorded(now_bucket)
            } else {
                old(self).limiter()
            },
            final(self).phase() == if old(self).phase() == SessionState::Active && frame is Close {
                SessionState::Closing
            } else {
                old(self).phase()
            },
            if old(self).phase() != SessionState::Active {
                reaction is Ignore
            } else if frame is Text && final(self).limiter().requests > old(self).ceiling() {
                reaction is Ignore
            } else {
                old(self).answers(frame, reaction)
            },
    {
        if self.state != SessionState::Active {
            return Reaction::Ignore;
        }
        match frame {
            Frame::Ping(payload) => {
                self.hb = now_ms;
                Reaction::Pong(payload)
            },
            Frame::Pong => {
                self.hb = now_ms;
                Reaction::Ignore
            },
            Frame::Text(parsed) => {
                self.rate_limit_struct.record_at(now_bucket);
                if self.rate_limit_struct.requests > self.rate_limit {
                    return Reaction::Ignore;
                }
                match parsed {
                    Ok(Event::Message { seconds_since_unix, nano_seconds, topics, data }) => {
                        Reaction::Publish(
                            PublishMessage {
                                sender: Sender::Device {
                                    device_id: self.device_id.clone(),
                                    device_type_id: self.device_type_id.clone(),
                                },
                                account_id: self.account_id.clone(),
                                message: Message { seconds_since_unix, nano_seconds, topics, data },
                            },
                        )
                    },
                    Ok(Event::Register { topics }) => {
                        Reaction::Register(
                            RegisterTopics {
                                account_id: self.account_id.clone(),
                                device_id: self.device_id.clone(),
                                topics,
                            },
                        )
                    },
                    Err(complaint) => {
                        Reaction::LogError {
                            device_id: self.device_id.clone(),
                            device_type_id: self.device_type_id.clone(),
                            error: complaint,
                        }
                    },
                }
            },
            Frame::Binary => Reaction::Ignore,
            Frame::Close => {
                self.state = SessionState::Closing;
                Reaction::Stop
            },
            Frame::Other => Reaction::Ignore,
        }
    }

    /// Takes a frame from the peer at `now_ms`, counting a text frame in
    /// the present minute.
    pub fn handle(&mut self, frame: Frame, now_ms: u64) -> (reaction: Reaction)
        requires
            old(self).phase() == SessionState::Active && frame is Text ==> old(self).limiter().requests
                < u64::MAX,
        ensures
            final(self).same_identity(*old(self)),
            final(self).last_heard() == if old(self).phase() == SessionState::Active && (frame is Ping
                || frame is Pong) {
                now_ms
            } else {
                old(self).last_heard()
            },
            if old(self).phase() == SessionState::Active && frame is Text {
                exists|now: std::time::SystemTime|
                    final(self).limiter() == old(self).limiter().recorded(#[trigger] reading_bucket(now))
            } else {
                final(self).limiter() == old(self).limiter()
            },
            final(self).phase() == if old(self).phase() == SessionState::Active && frame is Close {
                SessionState::Closing
            } else {
                old(self).phase()
            },
            if old(self).phase() != SessionState::Active {
                reaction is Ignore
            } else if frame is Text && final(self).limiter().requests > old(self).ceiling() {
                reaction is Ignore
            } else {
                old(self).answers(frame, reaction)
            },
    {
        let now_bucket = get_time_bucket();
        self.handle_at(frame, now_ms, now_bucket)
    }

    /// Takes the hub's shutdown notice: a session that is not yet closing
    /// turns to closing. The close frame to send says that the server
    /// restarts.
    pub fn shutdown(&mut self) -> (reason: CloseReason)
        ensures
            reason.code == CloseCode::Restart,
            reason.description matches Some(text) && text@ == shutdown_notice(),
            final(self).same_identity(*old(self)),
            final(self).last_heard() == old(self).last_heard(),
            final(self).limiter() == old(self).limiter(),
            final(self).phase() == if old(self).phase() == SessionState::Closed {
                SessionState::Closed
            } else {
                SessionState::Closing
            },
    {
        if self.state != SessionState::Closed {
            self.state = SessionState::Closing;
        }
        CloseReason {
            code: CloseCode::Restart,
            description: Some("new server being deployed".to_string()),
        }
    }

    /// Ends the session: it is closed from now on. The first time, the
    /// command that tells the hub to forget the session comes back; a
    /// session that is closed already has nothing more to say.
    pub fn stopped(&mut self) -> (command: Option<Disconnect>)
        ensures
            final(self).same_identity(*old(self)),
            final(self).last_heard() == old(self).last_heard(),
            final(self).limiter() == old(self).limiter(),
            final(self).phase() == SessionState::Closed,
            match command {
                Some(farewell) => {
                    &&& old(self).phase() != SessionState::Closed
                    &&& farewell.account_id@ == old(self).account()
                    &&& farewell.device_id@ == old(self).device()
                    &&& farewell.device_type_id@ == old(self).device_type()
                },
                None => old(self).phase() == SessionState::Closed,
            },
    {
        if self.state == SessionState::Closed {
            return None;
        }
        self.state = SessionState::Closed;
        Some(
            Disconnect {
                account_id: self.account_id.clone(),
                device_type_id: self.device_type_id.clone(),
                device_id: self.device_id.clone(),
            },
        )
    }
}

} // verus!
