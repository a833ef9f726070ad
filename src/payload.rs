//! The protocol's vocabulary: op codes, events, error codes and the
//! payloads they make up, with their mathematical models.
use vstd::prelude::*;

verus! {

/// The kind of a message; it drives the protocol.
#[derive(Clone, Copy, Debug, PartialEq, Eq, Structural)]
pub enum OP {
    /// An event was dispatched.
    Dispatch,
    /// Keeps the connection alive (sent by either side).
    Heartbeat,
    /// Starts a session with a passphrase (client to server).
    Identify,
    /// Asks the client to identify again with a new passphrase.
    ReIdentify,
    /// The session is invalid; the connection is about to close.
    InvalidSession,
    /// Sent by the server right after the connection opens.
    Hello,
    /// Acknowledges a heartbeat.
    HeartbeatAck,
}

/// The event a message is tagged with.
#[derive(Clone, Copy, Debug, PartialEq, Eq, Structural)]
pub enum Event {
    Empty,
    Ready,
}

/// Why a session was declared invalid.
#[derive(Clone, Copy, Debug, PartialEq, Eq, Structural)]
pub enum ErrorCode {
    UnknownError,
    UnknownOP,
    DecodeError,
    AuthenticationFailed,
    SessionTimeout,
}

/// Data of a `Dispatch` message: for now an opaque string.
#[derive(Clone, Debug, PartialEq, Eq)]
pub struct DispatchData {
    pub data: String,
}

/// Data of an `Identify` message: the credential the client asserts.
#[derive(Clone, Debug, PartialEq, Eq)]
pub struct IdentifyData {
    pub passphrase: String,
}

/// Data of an `InvalidSession` message: a code and text meant for display.
#[derive(Clone, Debug, PartialEq, Eq)]
pub struct InvalidSessionData {
    pub code: ErrorCode,
    pub description: String,
    pub explanation: String,
}

/// Data of a `Hello` message: the heartbeat cadence the server asks for, in seconds.
#[derive(Clone, Debug, PartialEq, Eq)]
pub struct HelloData {
    pub heartbeat_interval: u8,
}

/// The data a message carries, one variant per `OP`.
#[derive(Clone, Debug, PartialEq, Eq)]
pub enum PayloadData {
    Dispatch(DispatchData),
    Heartbeat,
    Identify(IdentifyData),
    ReIdentify,
    InvalidSession(InvalidSessionData),
    Hello(HelloData),
    HeartbeatAck,
}

/// One complete protocol message.
#[derive(Clone, Debug, PartialEq, Eq)]
pub struct Payload {
    pub op_code: OP,
    pub event_name: Event,
    pub data: PayloadData,
}

/// The mathematical value of a `PayloadData`: strings become their characters.
pub enum DataModel {
    Dispatch { data: Seq<char> },
    Heartbeat,
    Identify { passphrase: Seq<char> },
    ReIdentify,
    InvalidSession { code: ErrorCode, description: Seq<char>, explanation: Seq<char> },
    Hello { heartbeat_interval: u8 },
    HeartbeatAck,
}

/// The mathematical value of a `Payload`.
pub struct PayloadModel {
    pub op_code: OP,
    pub event_name: Event,
    pub data: DataModel,
}

impl View for PayloadData {
    type V = DataModel;

    open spec fn view(&self) -> DataModel {
        match self {
            PayloadData::Dispatch(d) => DataModel::Dispatch { data: d.data@ },
            PayloadData::Heartbeat => DataModel::Heartbeat,
            PayloadData::Identify(d) => DataModel::Identify { passphrase: d.passphrase@ },
            PayloadData::ReIdentify => DataModel::ReIdentify,
            PayloadData::InvalidSession(d) => DataModel::InvalidSession {
                code: d.code,
                description: d.description@,
                explanation: d.explanation@,
            },
            PayloadData::Hello(d) => DataModel::Hello { heartbeat_interval: d.heartbeat_interval },
            PayloadData::HeartbeatAck => DataModel::HeartbeatAck,
        }
    }
}

impl View for Payload {
    type V = PayloadModel;

    open spec fn view(&self) -> PayloadModel {
        PayloadModel { op_code: self.op_code, event_name: self.event_name, data: self.data@ }
    }
}

/// Wire ordinal of an `OP`.
pub open spec fn op_ordinal(op: OP) -> u8 {
    match op {
        OP::Dispatch => 0,
        OP::Heartbeat => 1,
        OP::Identify => 2,
        OP::ReIdentify => 3,
        OP::InvalidSession => 4,
        OP::Hello => 5,
        OP::HeartbeatAck => 6,
    }
}

/// Wire ordinal of an `Event`.
pub open spec fn event_ordinal(e: Event) -> u8 {
    match e {
        Event::Empty => 0,
        Event::Ready => 1,
    }
}

/// Wire ordinal of an `ErrorCode`.
pub open spec fn error_code_ordinal(c: ErrorCode) -> u8 {
    match c {
        ErrorCode::UnknownError => 0,
        ErrorCode::UnknownOP => 1,
        ErrorCode::DecodeError => 2,
        ErrorCode::AuthenticationFailed => 3,
        ErrorCode::SessionTimeout => 4,
    }
}

/// The `OP` that a piece of data belongs to.
pub open spec fn data_op(d: DataModel) -> OP {
    match d {
        DataModel::Dispatch { .. } => OP::Dispatch,
        DataModel::Heartbeat => OP::Heartbeat,
        DataModel::Identify { .. } => OP::Identify,
        DataModel::ReIdentify => OP::ReIdentify,
        DataModel::InvalidSession { .. } => OP::InvalidSession,
        DataModel::Hello { .. } => OP::Hello,
        DataModel::HeartbeatAck => OP::HeartbeatAck,
    }
}

impl PayloadModel {
    /// The data's variant is the one that the op code calls for.
    pub open spec fn consistent(self) -> bool {
        data_op(self.data) == self.op_code
    }
}

impl Payload {
    /// Builds a message whose data is the data of its op code.
    pub fn new(event_name: Event, data: PayloadData) -> (r: Payload)
        ensures
            r@.consistent(),
            r@.event_name == event_name,
            r@.data == data@,
    {
        let op_code = match &data {
            PayloadData::Dispatch(_) => OP::Dispatch,
            PayloadData::Heartbeat => OP::Heartbeat,
            PayloadData::Identify(_) => OP::Identify,
            PayloadData::ReIdentify => OP::ReIdentify,
            PayloadData::InvalidSession(_) => OP::InvalidSession,
            PayloadData::Hello(_) => OP::Hello,
            PayloadData::HeartbeatAck => OP::HeartbeatAck,
        };
        Payload { op_code, event_name, data }
    }
}

/// Short display text for an error code.
pub open spec fn error_description(c: ErrorCode) -> Seq<char> {
    match c {
        ErrorCode::UnknownError => "Unknown error"@,
        ErrorCode::UnknownOP => "Unknown OP code"@,
        ErrorCode::DecodeError => "Decode error"@,
        ErrorCode::AuthenticationFailed => "Authentication failed"@,
        ErrorCode::SessionTimeout => "Session timeout"@,
    }
}

/// Longer display text for an error code.
pub open spec fn error_explanation(c: ErrorCode) -> Seq<char> {
    match c {
        ErrorCode::UnknownError => "We're not sure what went wrong. Try reconnecting?"@,
        ErrorCode::UnknownOP => "The server received an unknown OP code. Try reconnecting?"@,
        ErrorCode::DecodeError => "The server received an invalid payload. Try reconnecting?"@,
        ErrorCode::AuthenticationFailed => "The server received an invalid passphrase too many times."@,
        ErrorCode::SessionTimeout => "You didn't send a heartbeat in time."@,
    }
}

impl ErrorCode {
    /// The diagnostic that an `InvalidSession` message carries for this code.
    pub fn populate(&self) -> (r: InvalidSessionData)
        ensures
            r.code == *self,
            r.description@ == error_description(*self),
            r.explanation@ == error_explanation(*self),
    {
        let (description, explanation) = match self {
            ErrorCode::UnknownError => (
                "Unknown error",
                "We're not sure what went wrong. Try reconnecting?",
            ),
            ErrorCode::UnknownOP => (
                "Unknown OP code",
                "The server received an unknown OP code. Try reconnecting?",
            ),
            ErrorCode::DecodeError => (
                "Decode error",
                "The server received an invalid payload. Try reconnecting?",
            ),
            ErrorCode::AuthenticationFailed => (
                "Authentication failed",
                "The server received an invalid passphrase too many times.",
            ),
            ErrorCode::SessionTimeout => (
                "Session timeout",
                "You didn't send a heartbeat in time.",
            ),
        };
        InvalidSessionData {
            code: *self,
            description: description.to_owned(),
            explanation: explanation.to_owned(),
        }
    }
}

/// The `InvalidSession` message for an error code, as a value.
pub open spec fn invalid_session_model(code: ErrorCode) -> PayloadModel {
    PayloadModel {
        op_code: OP::InvalidSession,
        event_name: Event::Empty,
        data: DataModel::InvalidSession {
            code,
            description: error_description(code),
            explanation: error_explanation(code),
        },
    }
}

/// The message of an op code that carries no data, as a value.
pub open spec fn bare_model(op_code: OP) -> PayloadModel {
    PayloadModel {
        op_code,
        event_name: Event::Empty,
        data: if op_code == OP::Heartbeat {
            DataModel::Heartbeat
        } else if op_code == OP::HeartbeatAck {
            DataModel::HeartbeatAck
        } else {
            DataModel::ReIdentify
        },
    }
}

/// The message that tells a client its passphrase was accepted, as a value:
/// a `Dispatch` of the `Ready` event with empty data.
pub open spec fn ready_model() -> PayloadModel {
    PayloadModel {
        op_code: OP::Dispatch,
        event_name: Event::Ready,
        data: DataModel::Dispatch { data: Seq::empty() },
    }
}

/// The `Identify` message for a passphrase, as a value.
pub open spec fn identify_model(passphrase: Seq<char>) -> PayloadModel {
    PayloadModel {
        op_code: OP::Identify,
        event_name: Event::Empty,
        data: DataModel::Identify { passphrase },
    }
}

/// The `InvalidSession` message for an error code.
pub fn invalid_session(code: ErrorCode) -> (r: Payload)
    ensures
        r@ == invalid_session_model(code),
{
    Payload {
        op_code: OP::InvalidSession,
        event_name: Event::Empty,
        data: PayloadData::InvalidSession(code.populate()),
    }
}

/// A message of an op code that carries no data.
pub fn bare(op_code: OP) -> (r: Payload)
    requires
        op_code == OP::Heartbeat || op_code == OP::HeartbeatAck || op_code == OP::ReIdentify,
    ensures
        r@ == bare_model(op_code),
{
    let data = match op_code {
        OP::Heartbeat => PayloadData::Heartbeat,
        OP::HeartbeatAck => PayloadData::HeartbeatAck,
        _ => PayloadData::ReIdentify,
    };
    Payload { op_code, event_name: Event::Empty, data }
}

/// The message that tells a client its passphrase was accepted.
pub fn ready() -> (r: Payload)
    ensures
        r@ == ready_model(),
{
    Payload {
        op_code: OP::Dispatch,
        event_name: Event::Ready,
        data: PayloadData::Dispatch(DispatchData { data: String::new() }),
    }
}

/// The `Identify` message for a passphrase.
pub fn identify(passphrase: String) -> (r: Payload)
    ensures
        r@ == identify_model(passphrase@),
{
    Payload {
        op_code: OP::Identify,
        event_name: Event::Empty,
        data: PayloadData::Identify(IdentifyData { passphrase }),
    }
}

/// The `Hello` message announcing a heartbeat cadence in seconds.
pub fn hello(heartbeat_interval: u8) -> (r: Payload)
    ensures
        r@ == (PayloadModel {
            op_code: OP::Hello,
            event_name: Event::Empty,
            data: DataModel::Hello { heartbeat_interval },
        }),
{
    Payload {
        op_code: OP::Hello,
        event_name: Event::Empty,
        data: PayloadData::Hello(HelloData { heartbeat_interval }),
    }
}

} // verus!
