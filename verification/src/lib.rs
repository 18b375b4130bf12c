//! In-process publish/subscribe messaging for tile pipelines.
//!
//! Agents subscribe to pipeline events on a [`ForgeBus`]; pipelines build
//! messages with a [`ForgeMessageBuilder`] and publish them on the bus, which
//! routes each message to the subscribers whose filters accept it and keeps a
//! history that can be queried per pipeline.
//!
//! Identifiers (of messages, pipelines and subscribers) are the 128-bit values
//! of random UUIDs.
pub mod builder;
pub mod bus;
pub mod clock;
pub mod ids;
pub mod laws;
pub mod message;

pub use builder::ForgeMessageBuilder;
pub use bus::{BusView, ForgeBus, ForgeSubscriber, SubscriberView};
pub use clock::{millis_to_timestamp, now_ms, timestamp_of};
pub use ids::{UUID_LAYOUT_MASK, UUID_RANDOM_LAYOUT};
pub use message::{ForgeMessage, ForgeMsgType, ForgePayload, MessageView, PayloadView};
