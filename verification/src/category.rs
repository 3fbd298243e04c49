use vstd::pervasive::unreached;
use vstd::prelude::*;

use crate::event_type::EventType;

verus! {

/// The category of an event: the protocol layer it belongs to, or the
/// generic severity classes.
#[derive(Clone, Copy, PartialEq, Eq, Structural, Debug)]
pub enum EventCategory {
    Connectivity,
    Security,
    Transport,
    Recovery,
    Http,
    Qpack,
    Error,
    Warning,
    Info,
    Debug,
    Verbose,
    Simulation,
}

/// The category of each event type that has one: the category its events
/// belong to. Generic events and the unspecified type have none.
pub open spec fn category_of(ty: EventType) -> Option<EventCategory> {
    match ty {
        EventType::ConnectivityEventType(_) => Some(EventCategory::Connectivity),
        EventType::SecurityEventType(_) => Some(EventCategory::Security),
        EventType::TransportEventType(_) => Some(EventCategory::Transport),
        EventType::RecoveryEventType(_) => Some(EventCategory::Recovery),
        EventType::Http3EventType(_) => Some(EventCategory::Http),
        EventType::QpackEventType(_) => Some(EventCategory::Qpack),
        EventType::GenericEventType(_) => None,
        EventType::Unspecified => None,
    }
}

/// The name under which a category is written: the variant's name in
/// snake case.
pub open spec fn category_name(c: EventCategory) -> Seq<char> {
    match c {
        EventCategory::Connectivity => "connectivity"@,
        EventCategory::Security => "security"@,
        EventCategory::Transport => "transport"@,
        EventCategory::Recovery => "recovery"@,
        EventCategory::Http => "http"@,
        EventCategory::Qpack => "qpack"@,
        EventCategory::Error => "error"@,
        EventCategory::Warning => "warning"@,
        EventCategory::Info => "info"@,
        EventCategory::Debug => "debug"@,
        EventCategory::Verbose => "verbose"@,
        EventCategory::Simulation => "simulation"@,
    }
}

impl EventCategory {
    /// The category of an event type. Only the types that have one (see
    /// `category_of`) are accepted.
    pub fn from_event_type(ty: EventType) -> (r: EventCategory)
        requires
            category_of(ty) is Some,
        ensures
            category_of(ty) == Some(r),
    {
        match ty {
            EventType::ConnectivityEventType(_) => EventCategory::Connectivity,
            EventType::SecurityEventType(_) => EventCategory::Security,
            EventType::TransportEventType(_) => EventCategory::Transport,
            EventType::RecoveryEventType(_) => EventCategory::Recovery,
            EventType::Http3EventType(_) => EventCategory::Http,
            EventType::QpackEventType(_) => EventCategory::Qpack,
            EventType::GenericEventType(_) | EventType::Unspecified => unreached(),
        }
    }

    /// The name under which this category is written.
    pub fn to_string(&self) -> (r: String)
        ensures
            r@ == category_name(*self),
    {
        let v: &str = match self {
            EventCategory::Connectivity => "connectivity",
            EventCategory::Security => "security",
            EventCategory::Transport => "transport",
            EventCategory::Recovery => "recovery",
            EventCategory::Http => "http",
            EventCategory::Qpack => "qpack",
            EventCategory::Error => "error",
            EventCategory::Warning => "warning",
            EventCategory::Info => "info",
            EventCategory::Debug => "debug",
            EventCategory::Verbose => "verbose",
            EventCategory::Simulation => "simulation",
        };
        v.to_owned()
    }
}

impl EventType {
    /// Whether this event type has a category, that is, whether
    /// `EventCategory::from_event_type` accepts it.
    pub fn has_category(&self) -> (r: bool)
        ensures
            r == (category_of(*self) is Some),
    {
        match *self {
            EventType::GenericEventType(_) | EventType::Unspecified => false,
            _ => true,
        }
    }
}

} // verus!
