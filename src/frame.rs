//! What the transport hands over: one frame at a time.
use vstd::prelude::*;

verus! {

/// A frame read from the transport.
#[derive(Clone, Debug, PartialEq, Eq)]
pub enum InboundFrame {
    /// A binary frame: one encoded payload.
    Binary(Vec<u8>),
    /// A text frame, which this protocol does not use.
    Text(Vec<u8>),
    /// The peer closed the connection.
    Close,
    /// A control frame the transport answers by itself (ping, pong).
    Control,
}

/// The mathematical value of an `InboundFrame`.
pub enum FrameModel {
    Binary(Seq<u8>),
    Text,
    Close,
    Control,
}

impl View for InboundFrame {
    type V = FrameModel;

    open spec fn view(&self) -> FrameModel {
        match self {
            InboundFrame::Binary(b) => FrameModel::Binary(b@),
            InboundFrame::Text(_) => FrameModel::Text,
            InboundFrame::Close => FrameModel::Close,
            InboundFrame::Control => FrameModel::Control,
        }
    }
}

} // verus!
