//! Session handshake and heartbeat liveness for a framed client/server
//! protocol, with the binary payload codec it rides on.
//!
//! Nothing here waits or performs I/O: the time and each frame read from
//! the transport come in as values, and what to send or close goes out as a
//! value, so that the transport, the timers and the tasks stay with the
//! caller.

pub mod client;
pub mod codec;
pub mod frame;
pub mod payload;
pub mod server;

pub use payload::{
    DispatchData, ErrorCode, Event, HelloData, IdentifyData, InvalidSessionData, Payload,
    PayloadData, OP,
};
