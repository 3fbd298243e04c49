use vstd::prelude::*;

use crate::event_type::{
    ConnectivityEventType, EventType, GenericEventType, Http3EventType, QpackEventType,
    RecoveryEventType, SecurityEventType, TransportEventType,
};
use crate::h3::ApplicationError;
use crate::quic::{
    FramesProcessed, MarkedForRetransmit, PacketLost, PacketReceived, PacketSent, QuicFrame,
    TransportError,
};

verus! {

/// Raw bytes, written as a hex string.
pub type Bytes = String;

/// How the time of the events in a trace is given.
#[derive(Clone, Copy, PartialEq, Eq, Structural, Debug)]
pub enum TimeFormat {
    Absolute,
    Delta,
    Relative,
}

/// Who data was moved to or from.
#[derive(Clone, Copy, PartialEq, Eq, Structural, Debug)]
pub enum DataRecipient {
    User,
    Application,
    Transport,
    Network,
    Dropped,
}

/// Length and, optionally, the content of raw data.
#[derive(Clone, PartialEq, Eq, Debug)]
pub struct RawInfo {
    pub length: Option<u64>,
    pub payload_length: Option<u64>,
    pub data: Option<Bytes>,
}

/// Cryptographic error codes.
#[derive(Clone, Copy, PartialEq, Eq, Structural, Debug)]
pub enum CryptoError {
    Prefix,
}

/// The code of a connection error: a transport or crypto error, or a raw value.
#[derive(Clone, Copy, PartialEq, Eq, Structural, Debug)]
pub enum ConnectionErrorCode {
    TransportError(TransportError),
    CryptoError(CryptoError),
    Value(u64),
}

/// The code of an application error: a known HTTP/3 error, or a raw value.
#[derive(Clone, Copy, PartialEq, Eq, Structural, Debug)]
pub enum ApplicationErrorCode {
    ApplicationError(ApplicationError),
    Value(u64),
}

/// The data of an event; its variant tells which event it is. The packet
/// and frame events keep the frames they carry; the other protocol events
/// keep no detail. The generic events keep their codes and messages.
#[derive(Clone, PartialEq, Debug)]
pub enum EventData {
    ServerListening,
    ConnectionStarted,
    ConnectionClosed,
    ConnectionIdUpdated,
    SpinBitUpdated,
    ConnectionStateUpdated,
    MtuUpdated,
    KeyUpdated,
    KeyDiscarded,
    VersionInformation,
    AlpnInformation,
    TransportParametersSet,
    TransportParametersRestored,
    DatagramsReceived,
    DatagramsSent,
    DatagramDropped,
    PacketReceived(PacketReceived),
    PacketSent(PacketSent),
    PacketDropped,
    PacketBuffered,
    PacketsAcked,
    StreamStateUpdated,
    FramesProcessed(FramesProcessed),
    DataMoved,
    RecoveryParametersSet,
    MetricsUpdated,
    CongestionStateUpdated,
    LossTimerUpdated,
    PacketLost(PacketLost),
    MarkedForRetransmit(MarkedForRetransmit),
    H3ParametersSet,
    H3ParametersRestored,
    H3StreamTypeSet,
    H3FrameCreated,
    H3FrameParsed,
    H3PushResolved,
    QpackStateUpdated,
    QpackStreamStateUpdated,
    QpackDynamicTableUpdated,
    QpackHeadersEncoded,
    QpackHeadersDecoded,
    QpackInstructionCreated,
    QpackInstructionParsed,
    ConnectionError {
        code: Option<ConnectionErrorCode>,
        description: Option<String>,
    },
    ApplicationError {
        code: Option<ApplicationErrorCode>,
        description: Option<String>,
    },
    InternalError {
        code: Option<u64>,
        description: Option<String>,
    },
    InternalWarning {
        code: Option<u64>,
        description: Option<String>,
    },
    Message {
        message: String,
    },
    Marker {
        marker_type: String,
        message: Option<String>,
    },
}

/// The event type that classifies each kind of event data. An internal
/// warning is classified as an internal error.
pub open spec fn event_type_of(d: EventData) -> EventType {
    match d {
        EventData::ServerListening => EventType::ConnectivityEventType(
            ConnectivityEventType::ServerListening,
        ),
        EventData::ConnectionStarted => EventType::ConnectivityEventType(
            ConnectivityEventType::ConnectionStarted,
        ),
        EventData::ConnectionClosed => EventType::ConnectivityEventType(
            ConnectivityEventType::ConnectionClosed,
        ),
        EventData::ConnectionIdUpdated => EventType::ConnectivityEventType(
            ConnectivityEventType::ConnectionIdUpdated,
        ),
        EventData::SpinBitUpdated => EventType::ConnectivityEventType(
            ConnectivityEventType::SpinBitUpdated,
        ),
        EventData::ConnectionStateUpdated => EventType::ConnectivityEventType(
            ConnectivityEventType::ConnectionStateUpdated,
        ),
        EventData::MtuUpdated => EventType::ConnectivityEventType(
            ConnectivityEventType::MtuUpdated,
        ),
        EventData::KeyUpdated => EventType::SecurityEventType(
            SecurityEventType::KeyUpdated,
        ),
        EventData::KeyDiscarded => EventType::SecurityEventType(
            SecurityEventType::KeyDiscarded,
        ),
        EventData::VersionInformation => EventType::TransportEventType(
            TransportEventType::VersionInformation,
        ),
        EventData::AlpnInformation => EventType::TransportEventType(
            TransportEventType::AlpnInformation,
        ),
        EventData::TransportParametersSet => EventType::TransportEventType(
            TransportEventType::ParametersSet,
        ),
        EventData::TransportParametersRestored => EventType::TransportEventType(
            TransportEventType::ParametersRestored,
        ),
        EventData::DatagramsReceived => EventType::TransportEventType(
            TransportEventType::DatagramsReceived,
        ),
        EventData::DatagramsSent => EventType::TransportEventType(
            TransportEventType::DatagramsSent,
        ),
        EventData::DatagramDropped => EventType::TransportEventType(
            TransportEventType::DatagramDropped,
        ),
        EventData::PacketReceived(_) => EventType::TransportEventType(
            TransportEventType::PacketReceived,
        ),
        EventData::PacketSent(_) => EventType::TransportEventType(
            TransportEventType::PacketSent,
        ),
        EventData::PacketDropped => EventType::TransportEventType(
            TransportEventType::PacketDropped,
        ),
        EventData::PacketBuffered => EventType::TransportEventType(
            TransportEventType::PacketBuffered,
        ),
        EventData::PacketsAcked => EventType::TransportEventType(
            TransportEventType::PacketsAcked,
        ),
        EventData::StreamStateUpdated => EventType::TransportEventType(
            TransportEventType::StreamStateUpdated,
        ),
        EventData::FramesProcessed(_) => EventType::TransportEventType(
            TransportEventType::FramesProcessed,
        ),
        EventData::DataMoved => EventType::TransportEventType(
            TransportEventType::DataMoved,
        ),
        EventData::RecoveryParametersSet => EventType::RecoveryEventType(
            RecoveryEventType::ParametersSet,
        ),
        EventData::MetricsUpdated => EventType::RecoveryEventType(
            RecoveryEventType::MetricsUpdated,
        ),
        EventData::CongestionStateUpdated => EventType::RecoveryEventType(
            RecoveryEventType::CongestionStateUpdated,
        ),
        EventData::LossTimerUpdated => EventType::RecoveryEventType(
            RecoveryEventType::LossTimerUpdated,
        ),
        EventData::PacketLost(_) => EventType::RecoveryEventType(
            RecoveryEventType::PacketLost,
        ),
        EventData::MarkedForRetransmit(_) => EventType::RecoveryEventType(
            RecoveryEventType::MarkedForRetransmit,
        ),
        EventData::H3ParametersSet => EventType::Http3EventType(
            Http3EventType::ParametersSet,
        ),
        EventData::H3ParametersRestored => EventType::Http3EventType(
            Http3EventType::ParametersRestored,
        ),
        EventData::H3StreamTypeSet => EventType::Http3EventType(
            Http3EventType::StreamTypeSet,
        ),
        EventData::H3FrameCreated => EventType::Http3EventType(
            Http3EventType::FrameCreated,
        ),
        EventData::H3FrameParsed => EventType::Http3EventType(
            Http3EventType::FrameParsed,
        ),
        EventData::H3PushResolved => EventType::Http3EventType(
            Http3EventType::PushResolved,
        ),
        EventData::QpackStateUpdated => EventType::QpackEventType(
            QpackEventType::StateUpdated,
        ),
        EventData::QpackStreamStateUpdated => EventType::QpackEventType(
            QpackEventType::StreamStateUpdated,
        ),
        EventData::QpackDynamicTableUpdated => EventType::QpackEventType(
            QpackEventType::DynamicTableUpdated,
        ),
        EventData::QpackHeadersEncoded => EventType::QpackEventType(
            QpackEventType::HeadersEncoded,
        ),
        EventData::QpackHeadersDecoded => EventType::QpackEventType(
            QpackEventType::HeadersDecoded,
        ),
        EventData::QpackInstructionCreated => EventType::QpackEventType(
            QpackEventType::InstructionCreated,
        ),
        EventData::QpackInstructionParsed => EventType::QpackEventType(
            QpackEventType::InstructionParsed,
        ),
        EventData::ConnectionError { .. } => EventType::GenericEventType(
            GenericEventType::ConnectionError,
        ),
        EventData::ApplicationError { .. } => EventType::GenericEventType(
            GenericEventType::ApplicationError,
        ),
        EventData::InternalError { .. } => EventType::GenericEventType(
            GenericEventType::InternalError,
        ),
        EventData::InternalWarning { .. } => EventType::GenericEventType(
            GenericEventType::InternalError,
        ),
        EventData::Message { .. } => EventType::GenericEventType(
            GenericEventType::Message,
        ),
        EventData::Marker { .. } => EventType::GenericEventType(
            GenericEventType::Marker,
        ),
    }
}

/// The frames that an event lists, if it lists any: packet sends, receipts
/// and losses may list them, retransmission marks and processed frames
/// always do, the other events never do.
pub open spec fn quic_frames(d: EventData) -> Option<Seq<QuicFrame>> {
    match d {
        EventData::PacketSent(pkt) => match pkt.frames {
            Some(f) => Some(f@),
            None => None,
        },
        EventData::PacketReceived(pkt) => match pkt.frames {
            Some(f) => Some(f@),
            None => None,
        },
        EventData::PacketLost(pkt) => match pkt.frames {
            Some(f) => Some(f@),
            None => None,
        },
        EventData::MarkedForRetransmit(ev) => Some(ev.frames@),
        EventData::FramesProcessed(ev) => Some(ev.frames@),
        _ => None,
    }
}

impl EventData {
    /// Returns the number of QUIC frames that this event lists, if it lists
    /// them.
    pub fn contains_quic_frames(&self) -> (r: Option<usize>)
        ensures
            r is Some <==> quic_frames(*self) is Some,
            r is Some ==> r->0 == quic_frames(*self)->0.len(),
            self matches EventData::PacketSent(p) ==> (p.frames matches Some(f) ==> r == Some(
                f.len(),
            )),
            self matches EventData::PacketSent(p) ==> (p.frames is None ==> r is None),
            self matches EventData::PacketReceived(p) ==> (p.frames matches Some(f) ==> r == Some(
                f.len(),
            )),
            self matches EventData::PacketReceived(p) ==> (p.frames is None ==> r is None),
            self matches EventData::PacketLost(p) ==> (p.frames matches Some(f) ==> r == Some(
                f.len(),
            )),
            self matches EventData::PacketLost(p) ==> (p.frames is None ==> r is None),
            self matches EventData::MarkedForRetransmit(ev) ==> r == Some(ev.frames.len()),
            self matches EventData::FramesProcessed(ev) ==> r == Some(ev.frames.len()),
            !(self is PacketSent || self is PacketReceived || self is PacketLost
                || self is MarkedForRetransmit || self is FramesProcessed) ==> r is None,
    {
        match self {
            EventData::PacketSent(pkt) => match &pkt.frames {
                Some(f) => Some(f.len()),
                None => None,
            },
            EventData::PacketReceived(pkt) => match &pkt.frames {
                Some(f) => Some(f.len()),
                None => None,
            },
            EventData::PacketLost(pkt) => match &pkt.frames {
                Some(f) => Some(f.len()),
                None => None,
            },
            EventData::MarkedForRetransmit(ev) => Some(ev.frames.len()),
            EventData::FramesProcessed(ev) => Some(ev.frames.len()),
            _ => None,
        }
    }
}

impl<'a> From<&'a EventData> for EventType {
    /// The event type that classifies the event data.
    fn from(event_data: &'a EventData) -> (r: EventType) {
        match event_data {
            EventData::ServerListening => EventType::ConnectivityEventType(
                ConnectivityEventType::ServerListening,
            ),
            EventData::ConnectionStarted => EventType::ConnectivityEventType(
                ConnectivityEventType::ConnectionStarted,
            ),
            EventData::ConnectionClosed => EventType::ConnectivityEventType(
                ConnectivityEventType::ConnectionClosed,
            ),
            EventData::ConnectionIdUpdated => EventType::ConnectivityEventType(
                ConnectivityEventType::ConnectionIdUpdated,
            ),
            EventData::SpinBitUpdated => EventType::ConnectivityEventType(
                ConnectivityEventType::SpinBitUpdated,
            ),
            EventData::ConnectionStateUpdated => EventType::ConnectivityEventType(
                ConnectivityEventType::ConnectionStateUpdated,
            ),
            EventData::MtuUpdated => EventType::ConnectivityEventType(
                ConnectivityEventType::MtuUpdated,
            ),
            EventData::KeyUpdated => EventType::SecurityEventType(
                SecurityEventType::KeyUpdated,
            ),
            EventData::KeyDiscarded => EventType::SecurityEventType(
                SecurityEventType::KeyDiscarded,
            ),
            EventData::VersionInformation => EventType::TransportEventType(
                TransportEventType::VersionInformation,
            ),
            EventData::AlpnInformation => EventType::TransportEventType(
                TransportEventType::AlpnInformation,
            ),
            EventData::TransportParametersSet => EventType::TransportEventType(
                TransportEventType::ParametersSet,
            ),
            EventData::TransportParametersRestored => EventType::TransportEventType(
                TransportEventType::ParametersRestored,
            ),
            EventData::DatagramsReceived => EventType::TransportEventType(
                TransportEventType::DatagramsReceived,
            ),
            EventData::DatagramsSent => EventType::TransportEventType(
                TransportEventType::DatagramsSent,
            ),
            EventData::DatagramDropped => EventType::TransportEventType(
                TransportEventType::DatagramDropped,
            ),
            EventData::PacketReceived(_) => EventType::TransportEventType(
                TransportEventType::PacketReceived,
            ),
            EventData::PacketSent(_) => EventType::TransportEventType(
                TransportEventType::PacketSent,
            ),
            EventData::PacketDropped => EventType::TransportEventType(
                TransportEventType::PacketDropped,
            ),
            EventData::PacketBuffered => EventType::TransportEventType(
                TransportEventType::PacketBuffered,
            ),
            EventData::PacketsAcked => EventType::TransportEventType(
                TransportEventType::PacketsAcked,
            ),
            EventData::StreamStateUpdated => EventType::TransportEventType(
                TransportEventType::StreamStateUpdated,
            ),
            EventData::FramesProcessed(_) => EventType::TransportEventType(
                TransportEventType::FramesProcessed,
            ),
            EventData::DataMoved => EventType::TransportEventType(
                TransportEventType::DataMoved,
            ),
            EventData::RecoveryParametersSet => EventType::RecoveryEventType(
                RecoveryEventType::ParametersSet,
            ),
            EventData::MetricsUpdated => EventType::RecoveryEventType(
                RecoveryEventType::MetricsUpdated,
            ),
            EventData::CongestionStateUpdated => EventType::RecoveryEventType(
                RecoveryEventType::CongestionStateUpdated,
            ),
            EventData::LossTimerUpdated => EventType::RecoveryEventType(
                RecoveryEventType::LossTimerUpdated,
            ),
            EventData::PacketLost(_) => EventType::RecoveryEventType(
                RecoveryEventType::PacketLost,
            ),
            EventData::MarkedForRetransmit(_) => EventType::RecoveryEventType(
                RecoveryEventType::MarkedForRetransmit,
            ),
            EventData::H3ParametersSet => EventType::Http3EventType(
                Http3EventType::ParametersSet,
            ),
            EventData::H3ParametersRestored => EventType::Http3EventType(
                Http3EventType::ParametersRestored,
            ),
            EventData::H3StreamTypeSet => EventType::Http3EventType(
                Http3EventType::StreamTypeSet,
            ),
            EventData::H3FrameCreated => EventType::Http3EventType(
                Http3EventType::FrameCreated,
            ),
            EventData::H3FrameParsed => EventType::Http3EventType(
                Http3EventType::FrameParsed,
            ),
            EventData::H3PushResolved => EventType::Http3EventType(
                Http3EventType::PushResolved,
            ),
            EventData::QpackStateUpdated => EventType::QpackEventType(
                QpackEventType::StateUpdated,
            ),
            EventData::QpackStreamStateUpdated => EventType::QpackEventType(
                QpackEventType::StreamStateUpdated,
            ),
            EventData::QpackDynamicTableUpdated => EventType::QpackEventType(
                QpackEventType::DynamicTableUpdated,
            ),
            EventData::QpackHeadersEncoded => EventType::QpackEventType(
                QpackEventType::HeadersEncoded,
            ),
            EventData::QpackHeadersDecoded => EventType::QpackEventType(
                QpackEventType::HeadersDecoded,
            ),
            EventData::QpackInstructionCreated => EventType::QpackEventType(
                QpackEventType::InstructionCreated,
            ),
            EventData::QpackInstructionParsed => EventType::QpackEventType(
                QpackEventType::InstructionParsed,
            ),
            EventData::ConnectionError { .. } => EventType::GenericEventType(
                GenericEventType::ConnectionError,
            ),
            EventData::ApplicationError { .. } => EventType::GenericEventType(
                GenericEventType::ApplicationError,
            ),
            EventData::InternalError { .. } => EventType::GenericEventType(
                GenericEventType::InternalError,
            ),
            EventData::InternalWarning { .. } => EventType::GenericEventType(
                GenericEventType::InternalError,
            ),
            EventData::Message { .. } => EventType::GenericEventType(
                GenericEventType::Message,
            ),
            EventData::Marker { .. } => EventType::GenericEventType(
                GenericEventType::Marker,
            ),
        }
    }
}

impl<'a> vstd::std_specs::convert::FromSpecImpl<&'a EventData> for EventType {
    open spec fn obeys_from_spec() -> bool {
        true
    }

    open spec fn from_spec(event_data: &'a EventData) -> EventType {
        event_type_of(*event_data)
    }
}

} // verus!
