//! One server connection: handshake, authentication and the two-phase
//! liveness timer.
//!
//! The connection never waits or reads by itself. Its owner sleeps for
//! `remaining_ms`, then reports the timer with `on_timer`; reports each frame
//! with `on_frame`; and carries out the `ServerAction` that comes back.
//! Times are milliseconds on a monotonic clock that the owner chooses.
use vstd::prelude::*;

use crate::codec::{decode, parse_payload};
use crate::frame::{FrameModel, InboundFrame};
use crate::payload::{
    bare, bare_model, hello, invalid_session, invalid_session_model, ready, ready_model, DataModel,
    ErrorCode, Event, Payload, PayloadData, PayloadModel, OP,
};

verus! {

/// Heartbeat cadence announced in `Hello`, in seconds.
pub const HEARTBEAT_INTERVAL: u8 = 60;

/// Extra seconds allowed beyond the cadence before a probe is sent.
pub const JITTER_ALLOWANCE: u8 = 5;

/// Length of the passphrase a server session is created with.
pub const PASSWORD_LENGTH: usize = 5;

/// Wrong passphrases after which the session is closed with `AuthenticationFailed`.
pub const MAX_PASSWORD_ATTEMPTS: u8 = 3;

/// Whether a character is an ASCII letter or digit.
pub open spec fn is_alphanumeric(c: char) -> bool {
    ('A' <= c && c <= 'Z') || ('a' <= c && c <= 'z') || ('0' <= c && c <= '9')
}

/// Relies on rand's `Alphanumeric.sample_string` with the thread's generator:
/// exactly `len` characters, each from `A-Z`, `a-z`, `0-9`.
#[verifier::external_body]
fn random_alphanumeric(len: usize) -> (r: String)
    ensures
        r@.len() == len,
        forall|i: int| 0 <= i < r@.len() ==> is_alphanumeric(#[trigger] r@[i]),
{
    rand::distributions::DistString::sample_string(
        &rand::distributions::Alphanumeric,
        &mut rand::thread_rng(),
        len,
    )
}

/// The per-connection state of the server.
pub struct ServerSession {
    pub authenticated: bool,
    pub address: String,
    pub password: String,
    pub password_attempts: u8,
}

impl ServerSession {
    /// A fresh session for a peer, with a random alphanumeric passphrase.
    pub fn new(address: String) -> (r: ServerSession)
        ensures
            !r.authenticated,
            r.address@ == address@,
            r.password_attempts == 0,
            r.password@.len() == PASSWORD_LENGTH,
            forall|i: int| 0 <= i < r.password@.len() ==> is_alphanumeric(#[trigger] r.password@[i]),
    {
        let password = random_alphanumeric(PASSWORD_LENGTH);
        ServerSession { authenticated: false, address, password, password_attempts: 0 }
    }

    /// A fresh session for a peer, with a passphrase chosen by the caller.
    pub fn with_password(address: String, password: String) -> (r: ServerSession)
        ensures
            !r.authenticated,
            r.address@ == address@,
            r.password@ == password@,
            r.password_attempts == 0,
    {
        ServerSession { authenticated: false, address, password, password_attempts: 0 }
    }
}

/// The liveness timing of a connection, in seconds.
#[derive(Clone, Copy, Debug, PartialEq, Eq, Structural)]
pub struct Liveness {
    pub heartbeat_interval: u8,
    pub jitter_allowance: u8,
}

impl Liveness {
    /// The timing this server runs with.
    pub fn standard() -> (r: Liveness)
        ensures
            r.heartbeat_interval == HEARTBEAT_INTERVAL,
            r.jitter_allowance == JITTER_ALLOWANCE,
    {
        Liveness { heartbeat_interval: HEARTBEAT_INTERVAL, jitter_allowance: JITTER_ALLOWANCE }
    }
}

/// What the owner of a connection does next.
#[derive(Clone, Debug, PartialEq, Eq)]
pub enum ServerAction {
    /// Nothing.
    Idle,
    /// Send the payload and carry on.
    Send(Payload),
    /// Send the payload, then close the transport.
    SendAndClose(Payload),
    /// Close the transport without sending anything.
    Close,
}

/// The mathematical value of a `ServerAction`.
pub enum ActionModel {
    Idle,
    Send(PayloadModel),
    SendAndClose(PayloadModel),
    Close,
}

impl View for ServerAction {
    type V = ActionModel;

    open spec fn view(&self) -> ActionModel {
        match self {
            ServerAction::Idle => ActionModel::Idle,
            ServerAction::Send(p) => ActionModel::Send(p@),
            ServerAction::SendAndClose(p) => ActionModel::SendAndClose(p@),
            ServerAction::Close => ActionModel::Close,
        }
    }
}

/// A server connection after the handshake.
pub struct ServerConnection {
    pub session: ServerSession,
    pub liveness: Liveness,
    /// When the last heartbeat came in, or the last probe went out.
    pub last_heartbeat: u64,
    /// A probe was sent and is not answered yet.
    pub requested_heartbeat_from_client: bool,
    pub closed: bool,
}

/// The mathematical value of a `ServerConnection`.
pub struct ServerState {
    pub authenticated: bool,
    pub address: Seq<char>,
    pub password: Seq<char>,
    pub password_attempts: u8,
    pub heartbeat_interval: u8,
    pub jitter_allowance: u8,
    pub last_heartbeat: u64,
    pub requested_heartbeat_from_client: bool,
    pub closed: bool,
}

impl View for ServerConnection {
    type V = ServerState;

    open spec fn view(&self) -> ServerState {
        ServerState {
            authenticated: self.session.authenticated,
            address: self.session.address@,
            password: self.session.password@,
            password_attempts: self.session.password_attempts,
            heartbeat_interval: self.liveness.heartbeat_interval,
            jitter_allowance: self.liveness.jitter_allowance,
            last_heartbeat: self.last_heartbeat,
            requested_heartbeat_from_client: self.requested_heartbeat_from_client,
            closed: self.closed,
        }
    }
}

impl ServerState {
    /// An open connection has wrong passphrases left before it is closed.
    pub open spec fn inv(self) -> bool {
        !self.closed ==> self.password_attempts < MAX_PASSWORD_ATTEMPTS
    }

    /// How long the peer may stay silent, in milliseconds.
    pub open spec fn window_ms(self) -> int {
        (self.heartbeat_interval + self.jitter_allowance) * 1000
    }

    /// Time since the last heartbeat (none if the clock reads earlier).
    pub open spec fn elapsed_ms(self, now: u64) -> int {
        if now >= self.last_heartbeat {
            now - self.last_heartbeat
        } else {
            0
        }
    }

    /// Time left before the liveness timer fires: never below zero.
    pub open spec fn remaining_ms(self, now: u64) -> int {
        if self.elapsed_ms(now) <= self.window_ms() {
            self.window_ms() - self.elapsed_ms(now)
        } else {
            0
        }
    }

    /// The timer fires: if a probe is outstanding the session times out;
    /// otherwise a probe is sent and the grace window starts now.
    pub open spec fn timer_step(self, now: u64) -> (ServerState, ActionModel) {
        if self.closed || self.remaining_ms(now) > 0 {
            (self, ActionModel::Idle)
        } else if self.requested_heartbeat_from_client {
            (
                ServerState { closed: true, ..self },
                ActionModel::SendAndClose(invalid_session_model(ErrorCode::SessionTimeout)),
            )
        } else {
            (
                ServerState { requested_heartbeat_from_client: true, last_heartbeat: now, ..self },
                ActionModel::Send(bare_model(OP::Heartbeat)),
            )
        }
    }

    /// A decoded payload comes in.
    pub open spec fn payload_step(self, now: u64, m: PayloadModel) -> (ServerState, ActionModel) {
        if self.closed {
            (self, ActionModel::Idle)
        } else {
            match m.data {
                DataModel::Heartbeat => (
                    ServerState {
                        last_heartbeat: now,
                        requested_heartbeat_from_client: false,
                        ..self
                    },
                    ActionModel::Send(bare_model(OP::HeartbeatAck)),
                ),
                DataModel::Identify { passphrase } => if passphrase == self.password {
                    (ServerState { authenticated: true, ..self }, ActionModel::Send(ready_model()))
                } else if self.password_attempts + 1 >= MAX_PASSWORD_ATTEMPTS {
                    (
                        ServerState {
                            password_attempts: (self.password_attempts + 1) as u8,
                            closed: true,
                            ..self
                        },
                        ActionModel::SendAndClose(
                            invalid_session_model(ErrorCode::AuthenticationFailed),
                        ),
                    )
                } else {
                    (
                        ServerState {
                            password_attempts: (self.password_attempts + 1) as u8,
                            ..self
                        },
                        ActionModel::Send(bare_model(OP::ReIdentify)),
                    )
                },
                _ => (
                    ServerState { closed: true, ..self },
                    ActionModel::SendAndClose(invalid_session_model(ErrorCode::UnknownOP)),
                ),
            }
        }
    }

    /// A frame comes in. Anything that is not a well-formed payload ends the
    /// session with `DecodeError`; the peer's close ends it silently.
    pub open spec fn frame_step(self, now: u64, f: FrameModel) -> (ServerState, ActionModel) {
        if self.closed {
            (self, ActionModel::Idle)
        } else {
            match f {
                FrameModel::Close => (ServerState { closed: true, ..self }, ActionModel::Close),
                FrameModel::Control => (self, ActionModel::Idle),
                FrameModel::Text => (
                    ServerState { closed: true, ..self },
                    ActionModel::SendAndClose(invalid_session_model(ErrorCode::DecodeError)),
                ),
                FrameModel::Binary(b) => match parse_payload(b) {
                    Some(m) => self.payload_step(now, m),
                    None => (
                        ServerState { closed: true, ..self },
                        ActionModel::SendAndClose(invalid_session_model(ErrorCode::DecodeError)),
                    ),
                },
            }
        }
    }
}

impl ServerConnection {
    /// Opens a connection at time `now`: the liveness clock starts, and the
    /// returned `Hello` announces the cadence.
    pub fn open(session: ServerSession, liveness: Liveness, now: u64) -> (r: (
        ServerConnection,
        Payload,
    ))
        requires
            session.password_attempts < MAX_PASSWORD_ATTEMPTS,
        ensures
            r.0@.inv(),
            r.0.session == session,
            r.0.liveness == liveness,
            r.0.last_heartbeat == now,
            !r.0.requested_heartbeat_from_client,
            !r.0.closed,
            r.1@ == (PayloadModel {
                op_code: OP::Hello,
                event_name: Event::Empty,
                data: DataModel::Hello { heartbeat_interval: liveness.heartbeat_interval },
            }),
    {
        let greeting = hello(liveness.heartbeat_interval);
        (
            ServerConnection {
                session,
                liveness,
                last_heartbeat: now,
                requested_heartbeat_from_client: false,
                closed: false,
            },
            greeting,
        )
    }

    /// How long to sleep before reporting the timer.
    pub fn remaining_ms(&self, now: u64) -> (r: u64)
        ensures
            r == self@.remaining_ms(now),
    {
        let window = (self.liveness.heartbeat_interval as u64 + self.liveness.jitter_allowance as u64)
            * 1000;
        let elapsed = if now >= self.last_heartbeat {
            now - self.last_heartbeat
        } else {
            0
        };
        if elapsed <= window {
            window - elapsed
        } else {
            0
        }
    }

    /// The liveness timer woke up at `now`.
    pub fn on_timer(&mut self, now: u64) -> (r: ServerAction)
        requires
            old(self)@.inv(),
        ensures
            final(self)@.inv(),
            (final(self)@, r@) == old(self)@.timer_step(now),
    {
        if self.closed || self.remaining_ms(now) > 0 {
            ServerAction::Idle
        } else if self.requested_heartbeat_from_client {
            self.closed = true;
            ServerAction::SendAndClose(invalid_session(ErrorCode::SessionTimeout))
        } else {
            self.requested_heartbeat_from_client = true;
            self.last_heartbeat = now;
            ServerAction::Send(bare(OP::Heartbeat))
        }
    }

    /// A well-formed payload came in at `now`.
    pub fn on_payload(&mut self, now: u64, p: Payload) -> (r: ServerAction)
        requires
            old(self)@.inv(),
            p@.consistent(),
        ensures
            final(self)@.inv(),
            (final(self)@, r@) == old(self)@.payload_step(now, p@),
    {
        if self.closed {
            return ServerAction::Idle;
        }
        match p.data {
            PayloadData::Heartbeat => {
                self.last_heartbeat = now;
                self.requested_heartbeat_from_client = false;
                ServerAction::Send(bare(OP::HeartbeatAck))
            },
            PayloadData::Identify(data) => {
                if data.passphrase == self.session.password {
                    self.session.authenticated = true;
                    ServerAction::Send(ready())
                } else {
                    self.session.password_attempts = self.session.password_attempts + 1;
                    if self.session.password_attempts >= MAX_PASSWORD_ATTEMPTS {
                        self.closed = true;
                        ServerAction::SendAndClose(invalid_session(ErrorCode::AuthenticationFailed))
                    } else {
                        ServerAction::Send(bare(OP::ReIdentify))
                    }
                }
            },
            _ => {
                self.closed = true;
                ServerAction::SendAndClose(invalid_session(ErrorCode::UnknownOP))
            },
        }
    }

    /// A frame came in at `now`.
    pub fn on_frame(&mut self, now: u64, frame: InboundFrame) -> (r: ServerAction)
        requires
            old(self)@.inv(),
        ensures
            final(self)@.inv(),
            (final(self)@, r@) == old(self)@.frame_step(now, frame@),
    {
        if self.closed {
            return ServerAction::Idle;
        }
        match frame {
            InboundFrame::Close => {
                self.closed = true;
                ServerAction::Close
            },
            InboundFrame::Control => ServerAction::Idle,
            InboundFrame::Text(_) => {
                self.closed = true;
                ServerAction::SendAndClose(invalid_session(ErrorCode::DecodeError))
            },
            InboundFrame::Binary(bytes) => match decode(bytes.as_slice()) {
                Ok(p) => {
                    proof {
                        crate::codec::lemma_decode_canonical(bytes@);
                    }
                    self.on_payload(now, p)
                },
                Err(code) => {
                    self.closed = true;
                    ServerAction::SendAndClose(invalid_session(code))
                },
            },
        }
    }
}

/// A silent peer is probed one window (`heartbeat_interval +
/// jitter_allowance` seconds) after its last heartbeat, and, still silent, is
/// closed with `SessionTimeout` one window after the probe. Before each of
/// these deadlines the timer does nothing.
pub proof fn lemma_silent_peer_times_out(s: ServerState, t: u64)
    requires
        !s.closed,
        !s.requested_heartbeat_from_client,
        s.last_heartbeat + 2 * s.window_ms() <= u64::MAX,
    ensures
        ({
            let w = s.window_ms();
            let t1 = (s.last_heartbeat + w) as u64;
            let t2 = (t1 + w) as u64;
            let (s1, a1) = s.timer_step(t1);
            let (s2, a2) = s1.timer_step(t2);
            &&& s.remaining_ms(s.last_heartbeat) == w
            &&& (s.last_heartbeat <= t < t1 ==> s.timer_step(t) == (s, ActionModel::Idle))
            &&& a1 == ActionModel::Send(bare_model(OP::Heartbeat))
            &&& s1.requested_heartbeat_from_client
            &&& !s1.closed
            &&& s1.remaining_ms(t1) == w
            &&& (t1 <= t < t2 ==> s1.timer_step(t) == (s1, ActionModel::Idle))
            &&& a2 == ActionModel::SendAndClose(invalid_session_model(ErrorCode::SessionTimeout))
            &&& s2.closed
        }),
{
}

/// A peer that answers a probe before the timer fires again stays open:
/// the probe does not close the connection, and the answering heartbeat
/// clears the outstanding flag, restarts the clock and is acknowledged, which
/// brings the connection back to where the probe found it.
pub proof fn lemma_answered_probe_keeps_open(s: ServerState, t1: u64, t2: u64, b: Seq<u8>)
    requires
        !s.closed,
        !s.requested_heartbeat_from_client,
        parse_payload(b) is Some,
        parse_payload(b).unwrap().op_code == OP::Heartbeat,
    ensures
        ({
            let (s1, a1) = s.timer_step(t1);
            let (s2, a2) = s1.frame_step(t2, FrameModel::Binary(b));
            &&& !s1.closed
            &&& a1 != ActionModel::Close
            &&& !(a1 is SendAndClose)
            &&& !s2.closed
            &&& !s2.requested_heartbeat_from_client
            &&& s2.last_heartbeat == t2
            &&& a2 == ActionModel::Send(bare_model(OP::HeartbeatAck))
        }),
{
    crate::codec::lemma_decode_canonical(b);
}

/// A wrong passphrase counts one attempt. The attempt that reaches
/// `MAX_PASSWORD_ATTEMPTS` ends the session with `AuthenticationFailed`;
/// an earlier one asks for a new passphrase with `ReIdentify`.
pub proof fn lemma_wrong_passphrase(s: ServerState, now: u64, b: Seq<u8>, passphrase: Seq<char>)
    requires
        s.inv(),
        !s.closed,
        parse_payload(b) == Some(crate::payload::identify_model(passphrase)),
        passphrase != s.password,
    ensures
        ({
            let (s1, a) = s.frame_step(now, FrameModel::Binary(b));
            &&& s1.inv()
            &&& s1.password_attempts == s.password_attempts + 1
            &&& !s1.authenticated || s.authenticated
            &&& s1.password_attempts == MAX_PASSWORD_ATTEMPTS ==> s1.closed && a
                == ActionModel::SendAndClose(invalid_session_model(ErrorCode::AuthenticationFailed))
            &&& s1.password_attempts < MAX_PASSWORD_ATTEMPTS ==> !s1.closed && a
                == ActionModel::Send(bare_model(OP::ReIdentify))
        }),
{
}

} // verus!
