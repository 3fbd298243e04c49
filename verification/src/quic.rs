use vstd::prelude::*;

verus! {

/// The kind of a QUIC frame carried in a packet. Only the kind is kept: the
/// fields of each frame are not part of this event model.
#[derive(Clone, Copy, PartialEq, Eq, Structural, Debug)]
pub enum QuicFrame {
    Padding,
    Ping,
    Ack,
    ResetStream,
    StopSending,
    Crypto,
    NewToken,
    Stream,
    MaxData,
    MaxStreamData,
    MaxStreams,
    DataBlocked,
    StreamDataBlocked,
    StreamsBlocked,
    NewConnectionId,
    RetireConnectionId,
    PathChallenge,
    PathResponse,
    ConnectionClose,
    HandshakeDone,
    Datagram,
    Unknown { raw_frame_type: u64 },
}

/// QUIC transport error codes.
#[derive(Clone, Copy, PartialEq, Eq, Structural, Debug)]
pub enum TransportError {
    NoError,
    InternalError,
    ConnectionRefused,
    FlowControlError,
    StreamLimitError,
    StreamStateError,
    FinalSizeError,
    FrameEncodingError,
    TransportParameterError,
    ConnectionIdLimitError,
    ProtocolViolation,
    InvalidToken,
    ApplicationError,
    CryptoBufferExceeded,
    KeyUpdateError,
    AeadLimitReached,
    NoViablePath,
    Unknown,
}

/// A packet was sent; its frames may be listed.
#[derive(Clone, PartialEq, Eq, Debug)]
pub struct PacketSent {
    pub frames: Option<Vec<QuicFrame>>,
}

/// A packet was received; its frames may be listed.
#[derive(Clone, PartialEq, Eq, Debug)]
pub struct PacketReceived {
    pub frames: Option<Vec<QuicFrame>>,
}

/// A packet was deemed lost; its frames may be listed.
#[derive(Clone, PartialEq, Eq, Debug)]
pub struct PacketLost {
    pub frames: Option<Vec<QuicFrame>>,
}

/// Frames were marked for retransmission.
#[derive(Clone, PartialEq, Eq, Debug)]
pub struct MarkedForRetransmit {
    pub frames: Vec<QuicFrame>,
}

/// Frames were processed.
#[derive(Clone, PartialEq, Eq, Debug)]
pub struct FramesProcessed {
    pub frames: Vec<QuicFrame>,
}

} // verus!
