use qlog::category::EventCategory;
use qlog::event_data::{
    ApplicationErrorCode, ConnectionErrorCode, CryptoError, DataRecipient, EventData, RawInfo,
    TimeFormat,
};
use qlog::event_type::{
    ConnectivityEventType, EventType, GenericEventType, Http3EventType, QpackEventType,
    RecoveryEventType, SecurityEventType, TransportEventType,
};
use qlog::h3::ApplicationError;
use qlog::importance::EventImportance;
use qlog::quic::{
    FramesProcessed, MarkedForRetransmit, PacketLost, PacketReceived, PacketSent, QuicFrame,
    TransportError,
};

const LEVELS: [EventImportance; 3] =
    [EventImportance::Core, EventImportance::Base, EventImportance::Extra];

#[test]
fn importance_containment_table() {
    let [core, base, extra] = LEVELS;
    assert!(core.is_contained_in(&core));
    assert!(core.is_contained_in(&base));
    assert!(core.is_contained_in(&extra));
    assert!(!base.is_contained_in(&core));
    assert!(base.is_contained_in(&base));
    assert!(base.is_contained_in(&extra));
    assert!(!extra.is_contained_in(&core));
    assert!(!extra.is_contained_in(&base));
    assert!(extra.is_contained_in(&extra));
}

#[test]
fn importance_containment_is_total_order() {
    for a in LEVELS.iter() {
        assert!(a.is_contained_in(a));
        for b in LEVELS.iter() {
            assert!(a.is_contained_in(b) || b.is_contained_in(a));
            if a.is_contained_in(b) && b.is_contained_in(a) {
                assert_eq!(a, b);
            }
            for c in LEVELS.iter() {
                if a.is_contained_in(b) && b.is_contained_in(c) {
                    assert!(a.is_contained_in(c));
                }
            }
        }
    }
}

fn all_event_data() -> Vec<EventData> {
    vec![
        EventData::ServerListening,
        EventData::ConnectionStarted,
        EventData::ConnectionClosed,
        EventData::ConnectionIdUpdated,
        EventData::SpinBitUpdated,
        EventData::ConnectionStateUpdated,
        EventData::MtuUpdated,
        EventData::KeyUpdated,
        EventData::KeyDiscarded,
        EventData::VersionInformation,
        EventData::AlpnInformation,
        EventData::TransportParametersSet,
        EventData::TransportParametersRestored,
        EventData::DatagramsReceived,
        EventData::DatagramsSent,
        EventData::DatagramDropped,
        EventData::PacketReceived(PacketReceived { frames: None }),
        EventData::PacketSent(PacketSent { frames: Some(vec![QuicFrame::Ping]) }),
        EventData::PacketDropped,
        EventData::PacketBuffered,
        EventData::PacketsAcked,
        EventData::StreamStateUpdated,
        EventData::FramesProcessed(FramesProcessed { frames: vec![] }),
        EventData::DataMoved,
        EventData::RecoveryParametersSet,
        EventData::MetricsUpdated,
        EventData::CongestionStateUpdated,
        EventData::LossTimerUpdated,
        EventData::PacketLost(PacketLost { frames: None }),
        EventData::MarkedForRetransmit(MarkedForRetransmit { frames: vec![QuicFrame::Crypto] }),
        EventData::H3ParametersSet,
        EventData::H3ParametersRestored,
        EventData::H3StreamTypeSet,
        EventData::H3FrameCreated,
        EventData::H3FrameParsed,
        EventData::H3PushResolved,
        EventData::QpackStateUpdated,
        EventData::QpackStreamStateUpdated,
        EventData::QpackDynamicTableUpdated,
        EventData::QpackHeadersEncoded,
        EventData::QpackHeadersDecoded,
        EventData::QpackInstructionCreated,
        EventData::QpackInstructionParsed,
        EventData::ConnectionError {
            code: Some(ConnectionErrorCode::TransportError(TransportError::ProtocolViolation)),
            description: None,
        },
        EventData::ApplicationError {
            code: Some(ApplicationErrorCode::ApplicationError(ApplicationError::HttpNoError)),
            description: Some("bye".to_string()),
        },
        EventData::InternalError { code: Some(7), description: None },
        EventData::InternalWarning { code: None, description: None },
        EventData::Message { message: "hello".to_string() },
        EventData::Marker { marker_type: "m".to_string(), message: None },
    ]
}

#[test]
fn event_type_from_data_examples() {
    assert_eq!(
        EventType::from(&EventData::ServerListening),
        EventType::ConnectivityEventType(ConnectivityEventType::ServerListening)
    );
    assert_eq!(
        EventType::from(&EventData::KeyDiscarded),
        EventType::SecurityEventType(SecurityEventType::KeyDiscarded)
    );
    assert_eq!(
        EventType::from(&EventData::TransportParametersSet),
        EventType::TransportEventType(TransportEventType::ParametersSet)
    );
    assert_eq!(
        EventType::from(&EventData::RecoveryParametersSet),
        EventType::RecoveryEventType(RecoveryEventType::ParametersSet)
    );
    assert_eq!(
        EventType::from(&EventData::H3ParametersRestored),
        EventType::Http3EventType(Http3EventType::ParametersRestored)
    );
    assert_eq!(
        EventType::from(&EventData::QpackInstructionParsed),
        EventType::QpackEventType(QpackEventType::InstructionParsed)
    );
    assert_eq!(
        EventType::from(&EventData::PacketLost(PacketLost { frames: None })),
        EventType::RecoveryEventType(RecoveryEventType::PacketLost)
    );
    assert_eq!(
        EventType::from(&EventData::Marker { marker_type: "x".to_string(), message: None }),
        EventType::GenericEventType(GenericEventType::Marker)
    );
}

#[test]
fn internal_warning_is_typed_as_internal_error() {
    let w = EventData::InternalWarning { code: Some(1), description: None };
    assert_eq!(EventType::from(&w), EventType::GenericEventType(GenericEventType::InternalError));
}

#[test]
fn every_event_data_has_a_type() {
    for d in all_event_data() {
        assert_ne!(EventType::from(&d), EventType::Unspecified);
    }
}

#[test]
fn category_exactly_for_non_generic_events() {
    for d in all_event_data() {
        let ty = EventType::from(&d);
        let generic = matches!(ty, EventType::GenericEventType(_));
        assert_eq!(ty.has_category(), !generic);
    }
}

#[test]
fn importance_implies_category() {
    for d in all_event_data() {
        let ty = EventType::from(&d);
        if ty.has_importance() {
            assert!(ty.has_category());
        }
    }
}

#[test]
fn importance_examples() {
    let t = |t| EventType::TransportEventType(t);
    assert_eq!(EventImportance::from_event_type(t(TransportEventType::PacketSent)), EventImportance::Core);
    assert_eq!(EventImportance::from_event_type(t(TransportEventType::PacketDropped)), EventImportance::Base);
    assert_eq!(EventImportance::from_event_type(t(TransportEventType::DatagramsSent)), EventImportance::Extra);
    assert_eq!(
        EventImportance::from_event_type(EventType::ConnectivityEventType(
            ConnectivityEventType::ServerListening
        )),
        EventImportance::Extra
    );
    assert_eq!(
        EventImportance::from_event_type(EventType::RecoveryEventType(
            RecoveryEventType::MetricsUpdated
        )),
        EventImportance::Core
    );
    assert_eq!(
        EventImportance::from_event_type(EventType::Http3EventType(Http3EventType::FrameParsed)),
        EventImportance::Core
    );
    assert_eq!(
        EventImportance::from_event_type(EventType::QpackEventType(
            QpackEventType::DynamicTableUpdated
        )),
        EventImportance::Extra
    );
    assert_eq!(
        EventImportance::from_event_type(EventType::SecurityEventType(
            SecurityEventType::KeyUpdated
        )),
        EventImportance::Base
    );
}

#[test]
fn types_without_importance() {
    let none = [
        EventType::ConnectivityEventType(ConnectivityEventType::ConnectionClosed),
        EventType::TransportEventType(TransportEventType::VersionInformation),
        EventType::TransportEventType(TransportEventType::AlpnInformation),
        EventType::TransportEventType(TransportEventType::ParametersRestored),
        EventType::TransportEventType(TransportEventType::PacketsAcked),
        EventType::Http3EventType(Http3EventType::ParametersRestored),
        EventType::GenericEventType(GenericEventType::Message),
        EventType::Unspecified,
    ];
    for ty in none.iter() {
        assert!(!ty.has_importance());
    }
    assert!(EventType::TransportEventType(TransportEventType::PacketReceived).has_importance());
}

#[test]
fn category_examples() {
    assert_eq!(
        EventCategory::from_event_type(EventType::ConnectivityEventType(
            ConnectivityEventType::MtuUpdated
        )),
        EventCategory::Connectivity
    );
    assert_eq!(
        EventCategory::from_event_type(EventType::SecurityEventType(
            SecurityEventType::KeyUpdated
        )),
        EventCategory::Security
    );
    assert_eq!(
        EventCategory::from_event_type(EventType::TransportEventType(
            TransportEventType::DataMoved
        )),
        EventCategory::Transport
    );
    assert_eq!(
        EventCategory::from_event_type(EventType::RecoveryEventType(
            RecoveryEventType::PacketLost
        )),
        EventCategory::Recovery
    );
    assert_eq!(
        EventCategory::from_event_type(EventType::Http3EventType(Http3EventType::PushResolved)),
        EventCategory::Http
    );
    assert_eq!(
        EventCategory::from_event_type(EventType::QpackEventType(QpackEventType::StateUpdated)),
        EventCategory::Qpack
    );
    assert!(!EventType::Unspecified.has_category());
    assert!(!EventType::GenericEventType(GenericEventType::ConnectionError).has_category());
}

#[test]
fn category_names() {
    let all = [
        (EventCategory::Connectivity, "connectivity"),
        (EventCategory::Security, "security"),
        (EventCategory::Transport, "transport"),
        (EventCategory::Recovery, "recovery"),
        (EventCategory::Http, "http"),
        (EventCategory::Qpack, "qpack"),
        (EventCategory::Error, "error"),
        (EventCategory::Warning, "warning"),
        (EventCategory::Info, "info"),
        (EventCategory::Debug, "debug"),
        (EventCategory::Verbose, "verbose"),
        (EventCategory::Simulation, "simulation"),
    ];
    for (c, name) in all.iter() {
        assert_eq!(c.to_string(), *name);
    }
    for (c1, _) in all.iter() {
        for (c2, _) in all.iter() {
            if c1 != c2 {
                assert_ne!(c1.to_string(), c2.to_string());
            }
        }
    }
}

#[test]
fn quic_frame_counts() {
    let frames = vec![QuicFrame::Ping, QuicFrame::Ack, QuicFrame::Stream];
    assert_eq!(
        EventData::PacketSent(PacketSent { frames: Some(frames.clone()) }).contains_quic_frames(),
        Some(3)
    );
    assert_eq!(EventData::PacketSent(PacketSent { frames: None }).contains_quic_frames(), None);
    assert_eq!(
        EventData::PacketReceived(PacketReceived { frames: Some(vec![]) }).contains_quic_frames(),
        Some(0)
    );
    assert_eq!(
        EventData::PacketReceived(PacketReceived { frames: None }).contains_quic_frames(),
        None
    );
    assert_eq!(
        EventData::PacketLost(PacketLost { frames: Some(vec![QuicFrame::Padding]) })
            .contains_quic_frames(),
        Some(1)
    );
    assert_eq!(
        EventData::MarkedForRetransmit(MarkedForRetransmit { frames: frames.clone() })
            .contains_quic_frames(),
        Some(3)
    );
    assert_eq!(
        EventData::FramesProcessed(FramesProcessed { frames: vec![] }).contains_quic_frames(),
        Some(0)
    );
    assert_eq!(EventData::PacketDropped.contains_quic_frames(), None);
    assert_eq!(EventData::Message { message: "m".to_string() }.contains_quic_frames(), None);
}

#[test]
fn frames_only_in_transport_and_recovery() {
    for d in all_event_data() {
        if d.contains_quic_frames().is_some() {
            let c = EventCategory::from_event_type(EventType::from(&d));
            assert!(c == EventCategory::Transport || c == EventCategory::Recovery);
        }
    }
}

#[test]
fn default_event_type_is_unspecified() {
    let ty = EventType::default();
    assert_eq!(ty, EventType::Unspecified);
    assert!(!ty.has_category());
    assert!(!ty.has_importance());
}

#[test]
fn plain_data_values() {
    let raw = RawInfo { length: Some(10), payload_length: Some(4), data: Some("0a0b".to_string()) };
    assert_eq!(raw.clone(), raw);
    assert_ne!(TimeFormat::Absolute, TimeFormat::Delta);
    assert_ne!(DataRecipient::User, DataRecipient::Network);
    assert_eq!(
        ConnectionErrorCode::CryptoError(CryptoError::Prefix),
        ConnectionErrorCode::CryptoError(CryptoError::Prefix)
    );
    assert_ne!(ApplicationErrorCode::Value(1), ApplicationErrorCode::Value(2));
}
