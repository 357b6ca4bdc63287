//! Core logic of a single-node MQTT v5 broker.
//!
//! The crate holds the broker's decision logic: settings validation, the
//! CONNACK negotiation, the session registry with its takeover semantics,
//! the per-session subscription table, the command dispatcher and the
//! per-connection reader decisions (shutdown, keep-alive, decode failures).
//! Every function in it is verified against its contract.
//!
//! Sockets, channels and the async tasks that drive these decisions live in
//! the embedding binary. They hand the library plain packet values and
//! carry out the [`control::Action`]s and [`reader::ReaderStep`]s it
//! returns; the packet codec itself is an external collaborator at the
//! socket boundary.

/// Packet handlers and the command dispatcher.
pub mod control;
/// Decisions of the per-connection reader task.
pub mod reader;

mod broker_config;
mod broker_settings;
mod ids;
mod packet;
mod peer;
mod publisher;
mod session;
mod sessions;
mod subs;
mod trigger;

pub use broker_config::BrokerConfig;
pub use broker_settings::BrokerSettings;
pub use ids::{generate_client_id, generate_session_id};
pub use packet::{
    Authentication, ConnAck, Connect, Disconnect, Packet, Publish, QoS, ReasonCode,
    RetainHandling, SubAck, Subscribe, SubscriptionOptions,
};
pub use peer::Peer;
pub use publisher::{Cache, Publisher};
pub use session::Session;
pub use sessions::{lemma_take_add_roundtrip, reg_has_sid, Sessions};
pub use subs::{
    has_wildcards, is_shared, lemma_resubscribe_replaces, spec_has_wildcards, spec_is_shared,
    Subs,
};
pub use trigger::Trigger;
