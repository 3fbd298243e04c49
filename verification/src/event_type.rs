use vstd::prelude::*;

verus! {

/// Events of the connectivity category.
#[derive(Clone, Copy, PartialEq, Eq, Structural, Debug)]
pub enum ConnectivityEventType {
    ServerListening,
    ConnectionStarted,
    ConnectionClosed,
    ConnectionIdUpdated,
    SpinBitUpdated,
    ConnectionStateUpdated,
    MtuUpdated,
}

/// Events of the security category.
#[derive(Clone, Copy, PartialEq, Eq, Structural, Debug)]
pub enum SecurityEventType {
    KeyUpdated,
    KeyDiscarded,
}

/// Events of the transport category.
#[derive(Clone, Copy, PartialEq, Eq, Structural, Debug)]
pub enum TransportEventType {
    VersionInformation,
    AlpnInformation,
    ParametersSet,
    ParametersRestored,
    DatagramsReceived,
    DatagramsSent,
    DatagramDropped,
    PacketReceived,
    PacketSent,
    PacketDropped,
    PacketBuffered,
    PacketsAcked,
    StreamStateUpdated,
    FramesProcessed,
    DataMoved,
}

/// Events of the recovery category.
#[derive(Clone, Copy, PartialEq, Eq, Structural, Debug)]
pub enum RecoveryEventType {
    ParametersSet,
    MetricsUpdated,
    CongestionStateUpdated,
    LossTimerUpdated,
    PacketLost,
    MarkedForRetransmit,
}

/// Events of the HTTP/3 category.
#[derive(Clone, Copy, PartialEq, Eq, Structural, Debug)]
pub enum Http3EventType {
    ParametersSet,
    ParametersRestored,
    StreamTypeSet,
    FrameCreated,
    FrameParsed,
    PushResolved,
}

/// Events of the QPACK category.
#[derive(Clone, Copy, PartialEq, Eq, Structural, Debug)]
pub enum QpackEventType {
    StateUpdated,
    StreamStateUpdated,
    DynamicTableUpdated,
    HeadersEncoded,
    HeadersDecoded,
    InstructionCreated,
    InstructionParsed,
}

/// Generic events that belong to no protocol category.
#[derive(Clone, Copy, PartialEq, Eq, Structural, Debug)]
pub enum GenericEventType {
    ConnectionError,
    ApplicationError,
    InternalError,
    InternalWarning,
    Message,
    Marker,
}

/// The type of an event: its category together with the event within it.
#[derive(Clone, Copy, PartialEq, Eq, Structural, Debug)]
pub enum EventType {
    ConnectivityEventType(ConnectivityEventType),
    TransportEventType(TransportEventType),
    SecurityEventType(SecurityEventType),
    RecoveryEventType(RecoveryEventType),
    Http3EventType(Http3EventType),
    QpackEventType(QpackEventType),
    GenericEventType(GenericEventType),
    /// No type: the type of an event that has not been classified.
    Unspecified,
}

impl Default for EventType {
    /// The type of an event that has not been classified yet.
    fn default() -> (r: Self)
        ensures
            r == EventType::Unspecified,
    {
        EventType::Unspecified
    }
}

} // verus!
