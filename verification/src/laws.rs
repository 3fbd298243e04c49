use vstd::prelude::*;

use crate::category::{category_name, category_of, EventCategory};
use crate::event_data::{event_type_of, quic_frames, EventData};
use crate::event_type::{
    ConnectivityEventType, EventType, GenericEventType, Http3EventType, QpackEventType,
    RecoveryEventType, SecurityEventType, TransportEventType,
};
use crate::importance::{importance_of, importance_rank, EventImportance};

verus! {

/// Containment of importance levels (`is_contained_in`) is a total order:
/// every level contains itself; containment is transitive; of two levels one
/// contains the other; two levels that contain each other are the same.
pub proof fn lemma_containment_is_total_order(
    a: EventImportance,
    b: EventImportance,
    c: EventImportance,
)
    ensures
        importance_rank(a) <= importance_rank(a),
        importance_rank(a) <= importance_rank(b) && importance_rank(b) <= importance_rank(c)
            ==> importance_rank(a) <= importance_rank(c),
        importance_rank(a) <= importance_rank(b) || importance_rank(b) <= importance_rank(a),
        importance_rank(a) <= importance_rank(b) && importance_rank(b) <= importance_rank(a)
            ==> a == b,
{
}

/// `Core` is contained in every importance level, and every level is
/// contained in `Extra`.
pub proof fn lemma_core_least_extra_greatest(a: EventImportance)
    ensures
        importance_rank(EventImportance::Core) <= importance_rank(a),
        importance_rank(a) <= importance_rank(EventImportance::Extra),
{
}

/// Every kind of event data is classified by a proper event type, never by
/// the unspecified one.
pub proof fn lemma_event_data_is_classified(d: EventData)
    ensures
        event_type_of(d) != EventType::Unspecified,
{
}

/// The type of event data has a category exactly when the event is not a
/// generic one.
pub proof fn lemma_category_iff_not_generic(d: EventData)
    ensures
        category_of(event_type_of(d)) is Some <==> !(event_type_of(d) is GenericEventType),
{
}

/// Every event type that has an importance level also has a category.
pub proof fn lemma_importance_implies_category(ty: EventType)
    ensures
        importance_of(ty) is Some ==> category_of(ty) is Some,
{
}

/// The events that list QUIC frames are transport or recovery events.
pub proof fn lemma_frames_only_in_transport_and_recovery(d: EventData)
    ensures
        quic_frames(d) is Some ==> category_of(event_type_of(d)) == Some(EventCategory::Transport)
            || category_of(event_type_of(d)) == Some(EventCategory::Recovery),
{
}

/// The unspecified event type, the default one, has neither a category nor
/// an importance level.
pub proof fn lemma_unspecified_type_unclassified()
    ensures
        category_of(EventType::Unspecified) is None,
        importance_of(EventType::Unspecified) is None,
{
}

/// Distinct categories are written under distinct names.
pub proof fn lemma_category_names_distinct(c1: EventCategory, c2: EventCategory)
    ensures
        c1 != c2 ==> category_name(c1) != category_name(c2),
{
    reveal_strlit("connectivity");
    reveal_strlit("security");
    reveal_strlit("transport");
    reveal_strlit("recovery");
    reveal_strlit("http");
    reveal_strlit("qpack");
    reveal_strlit("error");
    reveal_strlit("warning");
    reveal_strlit("info");
    reveal_strlit("debug");
    reveal_strlit("verbose");
    reveal_strlit("simulation");
    let (n1, n2) = (category_name(c1), category_name(c2));
    if c1 != c2 && n1 == n2 {
        // length and first letter already tell every two names apart
        assert(n1.len() == n2.len() && n1[0] == n2[0]);
    }
}

/// Each kind of event data has its own event type: an event of a variant is
/// given the type of the same name within its category, and no other kind of
/// data is given that type. The one exception is an internal warning, which
/// shares the internal-error type with internal errors; no data is typed as
/// an internal warning.
pub proof fn lemma_event_type_names_the_variant(d: EventData)
    ensures
        event_type_of(d) == EventType::ConnectivityEventType(ConnectivityEventType::ServerListening) <==> d is ServerListening,
        event_type_of(d) == EventType::ConnectivityEventType(ConnectivityEventType::ConnectionStarted) <==> d is ConnectionStarted,
        event_type_of(d) == EventType::ConnectivityEventType(ConnectivityEventType::ConnectionClosed) <==> d is ConnectionClosed,
        event_type_of(d) == EventType::ConnectivityEventType(ConnectivityEventType::ConnectionIdUpdated) <==> d is ConnectionIdUpdated,
        event_type_of(d) == EventType::ConnectivityEventType(ConnectivityEventType::SpinBitUpdated) <==> d is SpinBitUpdated,
        event_type_of(d) == EventType::ConnectivityEventType(ConnectivityEventType::ConnectionStateUpdated) <==> d is ConnectionStateUpdated,
        event_type_of(d) == EventType::ConnectivityEventType(ConnectivityEventType::MtuUpdated) <==> d is MtuUpdated,
        event_type_of(d) == EventType::SecurityEventType(SecurityEventType::KeyUpdated) <==> d is KeyUpdated,
        event_type_of(d) == EventType::SecurityEventType(SecurityEventType::KeyDiscarded) <==> d is KeyDiscarded,
        event_type_of(d) == EventType::TransportEventType(TransportEventType::VersionInformation) <==> d is VersionInformation,
        event_type_of(d) == EventType::TransportEventType(TransportEventType::AlpnInformation) <==> d is AlpnInformation,
        event_type_of(d) == EventType::TransportEventType(TransportEventType::ParametersSet) <==> d is TransportParametersSet,
        event_type_of(d) == EventType::TransportEventType(TransportEventType::ParametersRestored) <==> d is TransportParametersRestored,
        event_type_of(d) == EventType::TransportEventType(TransportEventType::DatagramsReceived) <==> d is DatagramsReceived,
        event_type_of(d) == EventType::TransportEventType(TransportEventType::DatagramsSent) <==> d is DatagramsSent,
        event_type_of(d) == EventType::TransportEventType(TransportEventType::DatagramDropped) <==> d is DatagramDropped,
        event_type_of(d) == EventType::TransportEventType(TransportEventType::PacketReceived) <==> d is PacketReceived,
        event_type_of(d) == EventType::TransportEventType(TransportEventType::PacketSent) <==> d is PacketSent,
        event_type_of(d) == EventType::TransportEventType(TransportEventType::PacketDropped) <==> d is PacketDropped,
        event_type_of(d) == EventType::TransportEventType(TransportEventType::PacketBuffered) <==> d is PacketBuffered,
        event_type_of(d) == EventType::TransportEventType(TransportEventType::PacketsAcked) <==> d is PacketsAcked,
        event_type_of(d) == EventType::TransportEventType(TransportEventType::StreamStateUpdated) <==> d is StreamStateUpdated,
        event_type_of(d) == EventType::TransportEventType(TransportEventType::FramesProcessed) <==> d is FramesProcessed,
        event_type_of(d) == EventType::TransportEventType(TransportEventType::DataMoved) <==> d is DataMoved,
        event_type_of(d) == EventType::RecoveryEventType(RecoveryEventType::ParametersSet) <==> d is RecoveryParametersSet,
        event_type_of(d) == EventType::RecoveryEventType(RecoveryEventType::MetricsUpdated) <==> d is MetricsUpdated,
        event_type_of(d) == EventType::RecoveryEventType(RecoveryEventType::CongestionStateUpdated) <==> d is CongestionStateUpdated,
        event_type_of(d) == EventType::RecoveryEventType(RecoveryEventType::LossTimerUpdated) <==> d is LossTimerUpdated,
        event_type_of(d) == EventType::RecoveryEventType(RecoveryEventType::PacketLost) <==> d is PacketLost,
        event_type_of(d) == EventType::RecoveryEventType(RecoveryEventType::MarkedForRetransmit) <==> d is MarkedForRetransmit,
        event_type_of(d) == EventType::Http3EventType(Http3EventType::ParametersSet) <==> d is H3ParametersSet,
        event_type_of(d) == EventType::Http3EventType(Http3EventType::ParametersRestored) <==> d is H3ParametersRestored,
        event_type_of(d) == EventType::Http3EventType(Http3EventType::StreamTypeSet) <==> d is H3StreamTypeSet,
        event_type_of(d) == EventType::Http3EventType(Http3EventType::FrameCreated) <==> d is H3FrameCreated,
        event_type_of(d) == EventType::Http3EventType(Http3EventType::FrameParsed) <==> d is H3FrameParsed,
        event_type_of(d) == EventType::Http3EventType(Http3EventType::PushResolved) <==> d is H3PushResolved,
        event_type_of(d) == EventType::QpackEventType(QpackEventType::StateUpdated) <==> d is QpackStateUpdated,
        event_type_of(d) == EventType::QpackEventType(QpackEventType::StreamStateUpdated) <==> d is QpackStreamStateUpdated,
        event_type_of(d) == EventType::QpackEventType(QpackEventType::DynamicTableUpdated) <==> d is QpackDynamicTableUpdated,
        event_type_of(d) == EventType::QpackEventType(QpackEventType::HeadersEncoded) <==> d is QpackHeadersEncoded,
        event_type_of(d) == EventType::QpackEventType(QpackEventType::HeadersDecoded) <==> d is QpackHeadersDecoded,
        event_type_of(d) == EventType::QpackEventType(QpackEventType::InstructionCreated) <==> d is QpackInstructionCreated,
        event_type_of(d) == EventType::QpackEventType(QpackEventType::InstructionParsed) <==> d is QpackInstructionParsed,
        event_type_of(d) == EventType::GenericEventType(GenericEventType::ConnectionError) <==> d is ConnectionError,
        event_type_of(d) == EventType::GenericEventType(GenericEventType::ApplicationError) <==> d is ApplicationError,
        event_type_of(d) == EventType::GenericEventType(GenericEventType::InternalError) <==> (d is InternalError || d is InternalWarning),
        event_type_of(d) == EventType::GenericEventType(GenericEventType::Message) <==> d is Message,
        event_type_of(d) == EventType::GenericEventType(GenericEventType::Marker) <==> d is Marker,
        event_type_of(d) != EventType::GenericEventType(GenericEventType::InternalWarning),
{
}

/// Two pieces of event data are of the same variant.
pub open spec fn same_variant(d1: EventData, d2: EventData) -> bool {
    ||| d1 is ServerListening && d2 is ServerListening
    ||| d1 is ConnectionStarted && d2 is ConnectionStarted
    ||| d1 is ConnectionClosed && d2 is ConnectionClosed
    ||| d1 is ConnectionIdUpdated && d2 is ConnectionIdUpdated
    ||| d1 is SpinBitUpdated && d2 is SpinBitUpdated
    ||| d1 is ConnectionStateUpdated && d2 is ConnectionStateUpdated
    ||| d1 is MtuUpdated && d2 is MtuUpdated
    ||| d1 is KeyUpdated && d2 is KeyUpdated
    ||| d1 is KeyDiscarded && d2 is KeyDiscarded
    ||| d1 is VersionInformation && d2 is VersionInformation
    ||| d1 is AlpnInformation && d2 is AlpnInformation
    ||| d1 is TransportParametersSet && d2 is TransportParametersSet
    ||| d1 is TransportParametersRestored && d2 is TransportParametersRestored
    ||| d1 is DatagramsReceived && d2 is DatagramsReceived
    ||| d1 is DatagramsSent && d2 is DatagramsSent
    ||| d1 is DatagramDropped && d2 is DatagramDropped
    ||| d1 is PacketReceived && d2 is PacketReceived
    ||| d1 is PacketSent && d2 is PacketSent
    ||| d1 is PacketDropped && d2 is PacketDropped
    ||| d1 is PacketBuffered && d2 is PacketBuffered
    ||| d1 is PacketsAcked && d2 is PacketsAcked
    ||| d1 is StreamStateUpdated && d2 is StreamStateUpdated
    ||| d1 is FramesProcessed && d2 is FramesProcessed
    ||| d1 is DataMoved && d2 is DataMoved
    ||| d1 is RecoveryParametersSet && d2 is RecoveryParametersSet
    ||| d1 is MetricsUpdated && d2 is MetricsUpdated
    ||| d1 is CongestionStateUpdated && d2 is CongestionStateUpdated
    ||| d1 is LossTimerUpdated && d2 is LossTimerUpdated
    ||| d1 is PacketLost && d2 is PacketLost
    ||| d1 is MarkedForRetransmit && d2 is MarkedForRetransmit
    ||| d1 is H3ParametersSet && d2 is H3ParametersSet
    ||| d1 is H3ParametersRestored && d2 is H3ParametersRestored
    ||| d1 is H3StreamTypeSet && d2 is H3StreamTypeSet
    ||| d1 is H3FrameCreated && d2 is H3FrameCreated
    ||| d1 is H3FrameParsed && d2 is H3FrameParsed
    ||| d1 is H3PushResolved && d2 is H3PushResolved
    ||| d1 is QpackStateUpdated && d2 is QpackStateUpdated
    ||| d1 is QpackStreamStateUpdated && d2 is QpackStreamStateUpdated
    ||| d1 is QpackDynamicTableUpdated && d2 is QpackDynamicTableUpdated
    ||| d1 is QpackHeadersEncoded && d2 is QpackHeadersEncoded
    ||| d1 is QpackHeadersDecoded && d2 is QpackHeadersDecoded
    ||| d1 is QpackInstructionCreated && d2 is QpackInstructionCreated
    ||| d1 is QpackInstructionParsed && d2 is QpackInstructionParsed
    ||| d1 is ConnectionError && d2 is ConnectionError
    ||| d1 is ApplicationError && d2 is ApplicationError
    ||| d1 is InternalError && d2 is InternalError
    ||| d1 is InternalWarning && d2 is InternalWarning
    ||| d1 is Message && d2 is Message
    ||| d1 is Marker && d2 is Marker
}

/// Data of two different variants gets two different event types, except
/// for an internal warning and an internal error, which share a type.
pub proof fn lemma_event_type_distinguishes_variants(d1: EventData, d2: EventData)
    ensures
        event_type_of(d1) == event_type_of(d2) ==> same_variant(d1, d2) || (
        (d1 is InternalError || d1 is InternalWarning) && (d2 is InternalError
            || d2 is InternalWarning)),
{
    lemma_event_type_names_the_variant(d1);
    lemma_event_type_names_the_variant(d2);
}

/// The importance levels of the event types. `Core`: transport parameters
/// set, packets sent and received, recovery metrics updated, packets lost,
/// HTTP/3 frames created and parsed. `Extra`: server listening, MTU updated,
/// datagrams received, sent and dropped, frames processed, loss timer
/// updated, frames marked for retransmission, pushes resolved, QPACK dynamic
/// table updated. None: connection closed, version and ALPN information,
/// transport and HTTP/3 parameters restored, packets acknowledged, every
/// generic event and the unspecified type. Every other type is `Base`.
pub proof fn lemma_importance_table(ty: EventType)
    ensures
        importance_of(ty) == Some(EventImportance::Core) <==> (ty == EventType::TransportEventType(TransportEventType::ParametersSet)
            || ty == EventType::TransportEventType(TransportEventType::PacketReceived)
            || ty == EventType::TransportEventType(TransportEventType::PacketSent)
            || ty == EventType::RecoveryEventType(RecoveryEventType::MetricsUpdated)
            || ty == EventType::RecoveryEventType(RecoveryEventType::PacketLost)
            || ty == EventType::Http3EventType(Http3EventType::FrameCreated)
            || ty == EventType::Http3EventType(Http3EventType::FrameParsed)),
        importance_of(ty) == Some(EventImportance::Extra) <==> (ty == EventType::ConnectivityEventType(ConnectivityEventType::ServerListening)
            || ty == EventType::ConnectivityEventType(ConnectivityEventType::MtuUpdated)
            || ty == EventType::TransportEventType(TransportEventType::DatagramsReceived)
            || ty == EventType::TransportEventType(TransportEventType::DatagramsSent)
            || ty == EventType::TransportEventType(TransportEventType::DatagramDropped)
            || ty == EventType::TransportEventType(TransportEventType::FramesProcessed)
            || ty == EventType::RecoveryEventType(RecoveryEventType::LossTimerUpdated)
            || ty == EventType::RecoveryEventType(RecoveryEventType::MarkedForRetransmit)
            || ty == EventType::Http3EventType(Http3EventType::PushResolved)
            || ty == EventType::QpackEventType(QpackEventType::DynamicTableUpdated)),
        importance_of(ty) is None <==> (ty == EventType::ConnectivityEventType(ConnectivityEventType::ConnectionClosed)
            || ty == EventType::TransportEventType(TransportEventType::VersionInformation)
            || ty == EventType::TransportEventType(TransportEventType::AlpnInformation)
            || ty == EventType::TransportEventType(TransportEventType::ParametersRestored)
            || ty == EventType::TransportEventType(TransportEventType::PacketsAcked)
            || ty == EventType::Http3EventType(Http3EventType::ParametersRestored)
            || ty is GenericEventType || ty is Unspecified),
{
}

/// Packets lost (a recovery event) are as important as packets sent and
/// received (transport events): all three are `Core`.
pub proof fn lemma_packet_events_are_core()
    ensures
        importance_of(EventType::RecoveryEventType(RecoveryEventType::PacketLost)) == Some(EventImportance::Core),
        importance_of(EventType::TransportEventType(TransportEventType::PacketSent)) == importance_of(EventType::RecoveryEventType(RecoveryEventType::PacketLost)),
        importance_of(EventType::TransportEventType(TransportEventType::PacketReceived)) == importance_of(EventType::RecoveryEventType(RecoveryEventType::PacketLost)),
{
}

/// The category of an event type is given by its outer variant alone:
/// every connectivity event is in `Connectivity`, every security event in
/// `Security`, every transport event in `Transport`, every recovery event in
/// `Recovery`, every HTTP/3 event in `Http`, every QPACK event in `Qpack`;
/// generic events and the unspecified type have no category.
pub proof fn lemma_category_by_outer_variant(ty: EventType)
    ensures
        ty is ConnectivityEventType ==> category_of(ty) == Some(EventCategory::Connectivity),
        ty is SecurityEventType ==> category_of(ty) == Some(EventCategory::Security),
        ty is TransportEventType ==> category_of(ty) == Some(EventCategory::Transport),
        ty is RecoveryEventType ==> category_of(ty) == Some(EventCategory::Recovery),
        ty is Http3EventType ==> category_of(ty) == Some(EventCategory::Http),
        ty is QpackEventType ==> category_of(ty) == Some(EventCategory::Qpack),
        ty is GenericEventType || ty is Unspecified ==> category_of(ty) is None,
{
}

/// Two event types with the same outer variant have the same category.
pub proof fn lemma_category_ignores_inner_event(a: EventType, b: EventType)
    ensures
        a is ConnectivityEventType && b is ConnectivityEventType ==> category_of(a) == category_of(b),
        a is SecurityEventType && b is SecurityEventType ==> category_of(a) == category_of(b),
        a is TransportEventType && b is TransportEventType ==> category_of(a) == category_of(b),
        a is RecoveryEventType && b is RecoveryEventType ==> category_of(a) == category_of(b),
        a is Http3EventType && b is Http3EventType ==> category_of(a) == category_of(b),
        a is QpackEventType && b is QpackEventType ==> category_of(a) == category_of(b),
{
}

/// Each category is written as its variant's name in snake case.
pub proof fn lemma_category_name_table()
    ensures
        category_name(EventCategory::Connectivity) == "connectivity"@,
        category_name(EventCategory::Security) == "security"@,
        category_name(EventCategory::Transport) == "transport"@,
        category_name(EventCategory::Recovery) == "recovery"@,
        category_name(EventCategory::Http) == "http"@,
        category_name(EventCategory::Qpack) == "qpack"@,
        category_name(EventCategory::Error) == "error"@,
        category_name(EventCategory::Warning) == "warning"@,
        category_name(EventCategory::Info) == "info"@,
        category_name(EventCategory::Debug) == "debug"@,
        category_name(EventCategory::Verbose) == "verbose"@,
        category_name(EventCategory::Simulation) == "simulation"@,
{
}

} // verus!
