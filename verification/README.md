# qlog event model

The event model of the qlog logging schema for QUIC and HTTP/3, verified
with Verus.

- `src/event_type.rs`: the event types, by category.
- `src/importance.rs`: importance levels, their containment order, and the
  importance of each event type.
- `src/category.rs`: event categories, their names, and the category of each
  event type.
- `src/event_data.rs`: event payloads, the classification of a payload by its
  event type, and the count of QUIC frames an event lists.
- `src/quic.rs`, `src/h3.rs`: frame kinds, packet payloads and error codes.
- `src/laws.rs`: properties that relate these functions.
- `app/`: serde forms of the model and the timed `Event` record, whose time
  is a float.
