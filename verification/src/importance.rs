use vstd::pervasive::unreached;
use vstd::prelude::*;

use crate::event_type::{
    ConnectivityEventType, EventType, Http3EventType, QpackEventType, RecoveryEventType,
    SecurityEventType, TransportEventType,
};


verus! {

/// How important an event is. `Core` events are the fewest and most
/// essential; `Extra` events are the most detailed.
#[derive(Clone, Copy, PartialEq, Eq, Structural, Debug)]
pub enum EventImportance {
    Core,
    Base,
    Extra,
}

/// The position of an importance level, from `Core` (0) to `Extra` (2).
pub open spec fn importance_rank(i: EventImportance) -> nat {
    match i {
        EventImportance::Core => 0,
        EventImportance::Base => 1,
        EventImportance::Extra => 2,
    }
}


/// The importance level of each event type that has one. Connection closes,
/// version and ALPN information, restored parameters, acknowledged packets,
/// the generic events and the unspecified type have none.
pub open spec fn importance_of(ty: EventType) -> Option<EventImportance> {
    match ty {
        EventType::ConnectivityEventType(c) => match c {
            ConnectivityEventType::ServerListening => Some(EventImportance::Extra),
            ConnectivityEventType::ConnectionStarted => Some(EventImportance::Base),
            ConnectivityEventType::ConnectionClosed => None,
            ConnectivityEventType::ConnectionIdUpdated => Some(EventImportance::Base),
            ConnectivityEventType::SpinBitUpdated => Some(EventImportance::Base),
            ConnectivityEventType::ConnectionStateUpdated => Some(EventImportance::Base),
            ConnectivityEventType::MtuUpdated => Some(EventImportance::Extra),
        },
        EventType::SecurityEventType(s) => match s {
            SecurityEventType::KeyUpdated => Some(EventImportance::Base),
            SecurityEventType::KeyDiscarded => Some(EventImportance::Base),
        },
        EventType::TransportEventType(t) => match t {
            TransportEventType::VersionInformation => None,
            TransportEventType::AlpnInformation => None,
            TransportEventType::ParametersSet => Some(EventImportance::Core),
            TransportEventType::ParametersRestored => None,
            TransportEventType::DatagramsReceived => Some(EventImportance::Extra),
            TransportEventType::DatagramsSent => Some(EventImportance::Extra),
            TransportEventType::DatagramDropped => Some(EventImportance::Extra),
            TransportEventType::PacketReceived => Some(EventImportance::Core),
            TransportEventType::PacketSent => Some(EventImportance::Core),
            TransportEventType::PacketDropped => Some(EventImportance::Base),
            TransportEventType::PacketBuffered => Some(EventImportance::Base),
            TransportEventType::PacketsAcked => None,
            TransportEventType::StreamStateUpdated => Some(EventImportance::Base),
            TransportEventType::FramesProcessed => Some(EventImportance::Extra),
            TransportEventType::DataMoved => Some(EventImportance::Base),
        },
        EventType::RecoveryEventType(r) => match r {
            RecoveryEventType::ParametersSet => Some(EventImportance::Base),
            RecoveryEventType::MetricsUpdated => Some(EventImportance::Core),
            RecoveryEventType::CongestionStateUpdated => Some(EventImportance::Base),
            RecoveryEventType::LossTimerUpdated => Some(EventImportance::Extra),
            RecoveryEventType::PacketLost => Some(EventImportance::Core),
            RecoveryEventType::MarkedForRetransmit => Some(EventImportance::Extra),
        },
        EventType::Http3EventType(h) => match h {
            Http3EventType::ParametersSet => Some(EventImportance::Base),
            Http3EventType::ParametersRestored => None,
            Http3EventType::StreamTypeSet => Some(EventImportance::Base),
            Http3EventType::FrameCreated => Some(EventImportance::Core),
            Http3EventType::FrameParsed => Some(EventImportance::Core),
            Http3EventType::PushResolved => Some(EventImportance::Extra),
        },
        EventType::QpackEventType(q) => match q {
            QpackEventType::StateUpdated => Some(EventImportance::Base),
            QpackEventType::StreamStateUpdated => Some(EventImportance::Base),
            QpackEventType::DynamicTableUpdated => Some(EventImportance::Extra),
            QpackEventType::HeadersEncoded => Some(EventImportance::Base),
            QpackEventType::HeadersDecoded => Some(EventImportance::Base),
            QpackEventType::InstructionCreated => Some(EventImportance::Base),
            QpackEventType::InstructionParsed => Some(EventImportance::Base),
        },
        EventType::GenericEventType(_) => None,
        EventType::Unspecified => None,
    }
}

impl EventImportance {
    /// Returns true if this importance level is included by `other`: a level
    /// includes itself and every level more essential than itself.
    pub fn is_contained_in(&self, other: &EventImportance) -> (r: bool)
        ensures
            r == (importance_rank(*self) <= importance_rank(*other)),
    {
        match (other, self) {
            (EventImportance::Core, EventImportance::Core) => true,
            (EventImportance::Base, EventImportance::Core)
            | (EventImportance::Base, EventImportance::Base) => true,
            (EventImportance::Extra, EventImportance::Core)
            | (EventImportance::Extra, EventImportance::Base)
            | (EventImportance::Extra, EventImportance::Extra) => true,
            (..) => false,
        }
    }
    /// The importance level of an event type. Only the types that have one
    /// (see `importance_of`) are accepted.
    pub fn from_event_type(ty: EventType) -> (r: EventImportance)
        requires
            importance_of(ty) is Some,
        ensures
            importance_of(ty) == Some(r),
    {
        match ty {
            EventType::ConnectivityEventType(c) => match c {
                ConnectivityEventType::ServerListening => EventImportance::Extra,
                ConnectivityEventType::ConnectionStarted => EventImportance::Base,
                ConnectivityEventType::ConnectionIdUpdated => EventImportance::Base,
                ConnectivityEventType::SpinBitUpdated => EventImportance::Base,
                ConnectivityEventType::ConnectionStateUpdated => EventImportance::Base,
                ConnectivityEventType::MtuUpdated => EventImportance::Extra,
                ConnectivityEventType::ConnectionClosed => unreached(),
            },
            EventType::SecurityEventType(s) => match s {
                SecurityEventType::KeyUpdated => EventImportance::Base,
                SecurityEventType::KeyDiscarded => EventImportance::Base,
            },
            EventType::TransportEventType(t) => match t {
                TransportEventType::ParametersSet => EventImportance::Core,
                TransportEventType::DatagramsReceived => EventImportance::Extra,
                TransportEventType::DatagramsSent => EventImportance::Extra,
                TransportEventType::DatagramDropped => EventImportance::Extra,
                TransportEventType::PacketReceived => EventImportance::Core,
                TransportEventType::PacketSent => EventImportance::Core,
                TransportEventType::PacketDropped => EventImportance::Base,
                TransportEventType::PacketBuffered => EventImportance::Base,
                TransportEventType::StreamStateUpdated => EventImportance::Base,
                TransportEventType::FramesProcessed => EventImportance::Extra,
                TransportEventType::DataMoved => EventImportance::Base,
                TransportEventType::VersionInformation
                | TransportEventType::AlpnInformation
                | TransportEventType::ParametersRestored
                | TransportEventType::PacketsAcked => unreached(),
            },
            EventType::RecoveryEventType(r) => match r {
                RecoveryEventType::ParametersSet => EventImportance::Base,
                RecoveryEventType::MetricsUpdated => EventImportance::Core,
                RecoveryEventType::CongestionStateUpdated => EventImportance::Base,
                RecoveryEventType::LossTimerUpdated => EventImportance::Extra,
                RecoveryEventType::PacketLost => EventImportance::Core,
                RecoveryEventType::MarkedForRetransmit => EventImportance::Extra,
            },
            EventType::Http3EventType(h) => match h {
                Http3EventType::ParametersSet => EventImportance::Base,
                Http3EventType::StreamTypeSet => EventImportance::Base,
                Http3EventType::FrameCreated => EventImportance::Core,
                Http3EventType::FrameParsed => EventImportance::Core,
                Http3EventType::PushResolved => EventImportance::Extra,
                Http3EventType::ParametersRestored => unreached(),
            },
            EventType::QpackEventType(q) => match q {
                QpackEventType::StateUpdated => EventImportance::Base,
                QpackEventType::StreamStateUpdated => EventImportance::Base,
                QpackEventType::DynamicTableUpdated => EventImportance::Extra,
                QpackEventType::HeadersEncoded => EventImportance::Base,
                QpackEventType::HeadersDecoded => EventImportance::Base,
                QpackEventType::InstructionCreated => EventImportance::Base,
                QpackEventType::InstructionParsed => EventImportance::Base,
            },
            EventType::GenericEventType(_) | EventType::Unspecified => unreached(),
        }
    }
}

impl EventType {
    /// Whether this event type has an importance level, that is, whether
    /// `EventImportance::from_event_type` accepts it.
    pub fn has_importance(&self) -> (r: bool)
        ensures
            r == (importance_of(*self) is Some),
    {
        match *self {
            EventType::ConnectivityEventType(ConnectivityEventType::ConnectionClosed)
            | EventType::TransportEventType(TransportEventType::VersionInformation)
            | EventType::TransportEventType(TransportEventType::AlpnInformation)
            | EventType::TransportEventType(TransportEventType::ParametersRestored)
            | EventType::TransportEventType(TransportEventType::PacketsAcked)
            | EventType::Http3EventType(Http3EventType::ParametersRestored)
            | EventType::GenericEventType(_)
            | EventType::Unspecified => false,
            _ => true,
        }
    }
}

} // verus!
