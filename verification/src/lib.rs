//! Event model of the qlog logging schema for QUIC and HTTP/3: the event
//! types and their categories and importance levels, the event payloads, and
//! the classification of a payload by its event type.

pub mod category;
pub mod event_data;
pub mod event_type;
pub mod h3;
pub mod importance;
pub mod laws;
pub mod quic;

pub use category::EventCategory;
pub use event_data::{
    ApplicationErrorCode, Bytes, ConnectionErrorCode, CryptoError, DataRecipient, EventData,
    RawInfo, TimeFormat,
};
pub use event_type::{
    ConnectivityEventType, EventType, GenericEventType, Http3EventType, QpackEventType,
    RecoveryEventType, SecurityEventType, TransportEventType,
};
pub use importance::EventImportance;
