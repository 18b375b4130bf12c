# forge_a2a

Agent-to-agent messaging for tile pipelines: an in-process publish/subscribe
bus (`ForgeBus`) with filter-based routing and a per-pipeline history, and a
builder (`ForgeMessageBuilder`) for the messages a pipeline emits.

The library under `src/` is written in Verus and verified:

- `message.rs` — message types, their mathematical views, copying;
- `bus.rs` — subscribe / unsubscribe / publish / history, specified over
  `BusView` (subscribers in subscription order, history oldest first);
- `builder.rs` — message construction, including the decimal stage text of a
  completed pipeline;
- `ids.rs`, `clock.rs` — random UUID identifiers and the wall clock, reached
  through small trusted wrappers;
- `laws.rs` — properties that span operations (unsubscribe undoes subscribe,
  a published message is the newest history entry of its pipeline, ...).

Identifiers are the 128-bit values of UUIDs and compression ratios travel as
the bit patterns of their binary64 values. `app/` holds serde-enabled copies of
the message types (with `uuid::Uuid` and `f64` fields) and conversions in both
directions.
