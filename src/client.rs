//! The client side of a connection: the session the user interface reads,
//! the handshake and inbound handling, and the heartbeat sender.
//!
//! As on the server, nothing here waits or performs I/O. The owner reports
//! each frame with `ClientConnection::on_frame` and carries out the
//! `ClientAction`; a heartbeat task sleeps `period_ms` between calls of
//! `HeartbeatTask::tick`.
use vstd::prelude::*;

use crate::codec::parse_payload;
use crate::frame::{FrameModel, InboundFrame};
use crate::payload::{
    bare, bare_model, identify, identify_model, DataModel, ErrorCode, Event, Payload, PayloadData,
    PayloadModel, OP,
};

verus! {

/// What the client knows of its connection; the user interface shows it and
/// edits `server_address` and `password`.
pub struct Session {
    pub authenticated: bool,
    pub connected: bool,
    pub error: Option<String>,
    pub password: String,
    pub server_address: String,
}

/// The mathematical value of a `Session`.
pub struct SessionModel {
    pub authenticated: bool,
    pub connected: bool,
    pub error: Option<Seq<char>>,
    pub password: Seq<char>,
    pub server_address: Seq<char>,
}

impl View for Session {
    type V = SessionModel;

    open spec fn view(&self) -> SessionModel {
        SessionModel {
            authenticated: self.authenticated,
            connected: self.connected,
            error: match self.error {
                Some(e) => Some(e@),
                None => None,
            },
            password: self.password@,
            server_address: self.server_address@,
        }
    }
}

impl Session {
    /// A session that has never connected, with no address or password yet.
    pub fn new() -> (r: Session)
        ensures
            r@ == (SessionModel {
                authenticated: false,
                connected: false,
                error: None,
                password: Seq::empty(),
                server_address: Seq::empty(),
            }),
    {
        Session {
            authenticated: false,
            connected: false,
            error: None,
            password: String::new(),
            server_address: String::new(),
        }
    }

    /// A connect attempt starts: the previous error is cleared.
    pub fn begin_connect(&mut self)
        ensures
            final(self)@ == (SessionModel { error: None, authenticated: false, ..old(self)@ }),
    {
        self.error = None;
        self.authenticated = false;
    }

    /// The transport handshake completed.
    pub fn on_connected(&mut self)
        ensures
            final(self)@ == (SessionModel { connected: true, error: None, ..old(self)@ }),
    {
        self.connected = true;
        self.error = None;
    }

    /// The transport failed; the message is kept for display.
    pub fn on_transport_error(&mut self, message: String)
        ensures
            final(self)@ == (SessionModel {
                connected: false,
                authenticated: false,
                error: Some(message@),
                ..old(self)@
            }),
    {
        self.connected = false;
        self.authenticated = false;
        self.error = Some(message);
    }
}

/// Where a client connection stands.
#[derive(Clone, Copy, Debug, PartialEq, Eq, Structural)]
pub enum ClientPhase {
    /// Connected; the server's `Hello` has not come yet.
    AwaitingHello,
    /// `Hello` came; heartbeats run.
    Active,
    /// The connection is over.
    Closed,
}

/// A client connection after the transport handshake.
#[derive(Clone, Copy, Debug, PartialEq, Eq, Structural)]
pub struct ClientConnection {
    pub phase: ClientPhase,
    /// The cadence from `Hello`, in seconds; meaningful once active.
    pub heartbeat_interval: u8,
}

/// What the owner of a client connection does next.
#[derive(Clone, Debug, PartialEq, Eq)]
pub enum ClientAction {
    /// Nothing.
    Idle,
    /// Queue the payload for sending.
    Send(Payload),
    /// Start a heartbeat task with this cadence in seconds.
    StartHeartbeat(u8),
    /// The input was not acceptable and was dropped; the code says why.
    Rejected(ErrorCode),
    /// The peer closed the connection.
    Closed,
}

/// The mathematical value of a `ClientAction`.
pub enum ClientActionModel {
    Idle,
    Send(PayloadModel),
    StartHeartbeat(u8),
    Rejected(ErrorCode),
    Closed,
}

impl View for ClientAction {
    type V = ClientActionModel;

    open spec fn view(&self) -> ClientActionModel {
        match self {
            ClientAction::Idle => ClientActionModel::Idle,
            ClientAction::Send(p) => ClientActionModel::Send(p@),
            ClientAction::StartHeartbeat(n) => ClientActionModel::StartHeartbeat(*n),
            ClientAction::Rejected(c) => ClientActionModel::Rejected(*c),
            ClientAction::Closed => ClientActionModel::Closed,
        }
    }
}

/// A decoded payload comes in.
pub open spec fn client_payload_step(c: ClientConnection, s: SessionModel, m: PayloadModel) -> (
    ClientConnection,
    SessionModel,
    ClientActionModel,
) {
    match m.data {
        DataModel::Hello { heartbeat_interval } => if c.phase == ClientPhase::AwaitingHello {
            (
                ClientConnection { phase: ClientPhase::Active, heartbeat_interval },
                s,
                ClientActionModel::StartHeartbeat(heartbeat_interval),
            )
        } else {
            (c, s, ClientActionModel::Rejected(ErrorCode::UnknownOP))
        },
        DataModel::Heartbeat => (c, s, ClientActionModel::Send(bare_model(OP::Heartbeat))),
        DataModel::HeartbeatAck => (c, s, ClientActionModel::Idle),
        DataModel::ReIdentify => (c, s, ClientActionModel::Send(identify_model(s.password))),
        DataModel::InvalidSession { description, .. } => (
            c,
            SessionModel { error: Some(description), ..s },
            ClientActionModel::Idle,
        ),
        DataModel::Dispatch { .. } => if m.event_name == Event::Ready {
            (c, SessionModel { authenticated: true, ..s }, ClientActionModel::Idle)
        } else {
            (c, s, ClientActionModel::Idle)
        },
        DataModel::Identify { .. } => (c, s, ClientActionModel::Rejected(ErrorCode::UnknownOP)),
    }
}

/// A frame comes in. Bad input is dropped with `Rejected`, never fatal.
pub open spec fn client_frame_step(c: ClientConnection, s: SessionModel, f: FrameModel) -> (
    ClientConnection,
    SessionModel,
    ClientActionModel,
) {
    if c.phase == ClientPhase::Closed {
        (c, s, ClientActionModel::Idle)
    } else {
        match f {
            FrameModel::Close => (
                ClientConnection { phase: ClientPhase::Closed, ..c },
                SessionModel { connected: false, authenticated: false, ..s },
                ClientActionModel::Closed,
            ),
            FrameModel::Control => (c, s, ClientActionModel::Idle),
            FrameModel::Text => (c, s, ClientActionModel::Rejected(ErrorCode::DecodeError)),
            FrameModel::Binary(b) => match parse_payload(b) {
                Some(m) => client_payload_step(c, s, m),
                None => (c, s, ClientActionModel::Rejected(ErrorCode::DecodeError)),
            },
        }
    }
}

impl ClientConnection {
    /// A connection whose transport handshake just completed.
    pub fn new() -> (r: ClientConnection)
        ensures
            r.phase == ClientPhase::AwaitingHello,
            r.heartbeat_interval == 0,
    {
        ClientConnection { phase: ClientPhase::AwaitingHello, heartbeat_interval: 0 }
    }

    /// A well-formed payload came in.
    pub fn on_payload(&mut self, session: &mut Session, p: Payload) -> (r: ClientAction)
        requires
            p@.consistent(),
        ensures
            (*final(self), final(session)@, r@) == client_payload_step(*old(self), old(session)@, p@),
    {
        let event_name = p.event_name;
        match p.data {
            PayloadData::Hello(data) => {
                if self.phase == ClientPhase::AwaitingHello {
                    self.phase = ClientPhase::Active;
                    self.heartbeat_interval = data.heartbeat_interval;
                    ClientAction::StartHeartbeat(data.heartbeat_interval)
                } else {
                    ClientAction::Rejected(ErrorCode::UnknownOP)
                }
            },
            PayloadData::Heartbeat => ClientAction::Send(bare(OP::Heartbeat)),
            PayloadData::HeartbeatAck => ClientAction::Idle,
            PayloadData::ReIdentify => ClientAction::Send(identify(session.password.clone())),
            PayloadData::InvalidSession(data) => {
                session.error = Some(data.description);
                ClientAction::Idle
            },
            PayloadData::Dispatch(_) => {
                if event_name == Event::Ready {
                    session.authenticated = true;
                }
                ClientAction::Idle
            },
            PayloadData::Identify(_) => ClientAction::Rejected(ErrorCode::UnknownOP),
        }
    }

    /// A frame came in.
    pub fn on_frame(&mut self, session: &mut Session, frame: InboundFrame) -> (r: ClientAction)
        ensures
            (*final(self), final(session)@, r@) == client_frame_step(
                *old(self),
                old(session)@,
                frame@,
            ),
    {
        if self.phase == ClientPhase::Closed {
            return ClientAction::Idle;
        }
        match frame {
            InboundFrame::Close => {
                self.phase = ClientPhase::Closed;
                session.connected = false;
                session.authenticated = false;
                ClientAction::Closed
            },
            InboundFrame::Control => ClientAction::Idle,
            InboundFrame::Text(_) => ClientAction::Rejected(ErrorCode::DecodeError),
            InboundFrame::Binary(bytes) => match crate::codec::decode(bytes.as_slice()) {
                Ok(p) => {
                    proof {
                        crate::codec::lemma_decode_canonical(bytes@);
                    }
                    self.on_payload(session, p)
                },
                Err(code) => ClientAction::Rejected(code),
            },
        }
    }
}

/// The background task that keeps a client connection alive.
#[derive(Clone, Copy, Debug, PartialEq, Eq, Structural)]
pub struct HeartbeatTask {
    /// Seconds between ticks.
    pub interval: u8,
    /// The task saw the session disconnected and has ended.
    pub stopped: bool,
}

/// Whether a tick enqueues a heartbeat: only while the task runs and the
/// session is still connected.
pub open spec fn tick_sends(stopped: bool, connected: bool) -> bool {
    !stopped && connected
}

/// For the `connected` flag seen at each successive tick, whether that tick
/// enqueued a heartbeat.
pub open spec fn ticks_sent(stopped: bool, observed: Seq<bool>) -> Seq<bool>
    decreases observed.len(),
{
    if observed.len() == 0 {
        Seq::empty()
    } else {
        let sent = tick_sends(stopped, observed[0]);
        seq![sent] + ticks_sent(!sent, observed.drop_first())
    }
}

impl HeartbeatTask {
    /// A task for the cadence a `Hello` announced.
    pub fn new(interval: u8) -> (r: HeartbeatTask)
        ensures
            r.interval == interval,
            !r.stopped,
    {
        HeartbeatTask { interval, stopped: false }
    }

    /// Time to sleep before each tick, in milliseconds.
    pub fn period_ms(&self) -> (r: u64)
        ensures
            r == self.interval * 1000,
    {
        self.interval as u64 * 1000
    }

    /// One tick, with the session's `connected` flag read just now: a
    /// heartbeat to enqueue, or `None` once the task has ended.
    pub fn tick(&mut self, connected: bool) -> (r: Option<Payload>)
        ensures
            final(self).interval == old(self).interval,
            r is Some == tick_sends(old(self).stopped, connected),
            final(self).stopped == !tick_sends(old(self).stopped, connected),
            r matches Some(p) ==> p@ == bare_model(OP::Heartbeat),
    {
        if self.stopped || !connected {
            self.stopped = true;
            None
        } else {
            Some(bare(OP::Heartbeat))
        }
    }
}

proof fn lemma_ticks_sent(stopped: bool, observed: Seq<bool>)
    ensures
        ticks_sent(stopped, observed).len() == observed.len(),
        forall|k: int|
            0 <= k < observed.len() ==> (#[trigger] ticks_sent(stopped, observed)[k] <==> !stopped
                && forall|j: int| 0 <= j <= k ==> observed[j]),
    decreases observed.len(),
{
    if observed.len() > 0 {
        let sent = tick_sends(stopped, observed[0]);
        let rest = observed.drop_first();
        lemma_ticks_sent(!sent, rest);
        let all = ticks_sent(stopped, observed);
        assert forall|k: int| 0 <= k < observed.len() implies (#[trigger] all[k] <==> !stopped
            && forall|j: int| 0 <= j <= k ==> observed[j]) by {
            if k > 0 {
                assert(all[k] == ticks_sent(!sent, rest)[k - 1]);
                if !stopped && (forall|j: int| 0 <= j <= k ==> observed[j]) {
                    assert forall|j: int| 0 <= j <= k - 1 implies rest[j] by {
                        assert(observed[j + 1]);
                    }
                }
                if all[k] {
                    assert forall|j: int| 0 <= j <= k implies observed[j] by {
                        if j > 0 {
                            assert(rest[j - 1]);
                        }
                    }
                }
            }
        }
    }
}

/// The heartbeat task enqueues exactly one heartbeat per tick for as long
/// as the session stays connected, and none from the first tick that finds
/// it disconnected on, even if it reconnects later.
pub proof fn lemma_cadence(observed: Seq<bool>)
    ensures
        ticks_sent(false, observed).len() == observed.len(),
        forall|k: int|
            0 <= k < observed.len() ==> (#[trigger] ticks_sent(false, observed)[k] <==> forall|
                j: int,
            |
                0 <= j <= k ==> observed[j]),
{
    lemma_ticks_sent(false, observed);
}

} // verus!
