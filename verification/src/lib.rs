//! A facade for publishing an application's rich-presence status over a
//! local IPC channel.
//!
//! The crate translates a [`RichPresenceConfig`] into the wire activity
//! payload, owns at most one IPC connection, and tracks connection state.
//! The IPC handshake, framing and socket transport are delegated to an
//! outside library; the translation and the connection lifecycle are
//! verified here.

mod models;
mod payload;
mod manager;
mod discord_ipc;
mod error;
mod transport;

pub use discord_ipc::ClientView;
pub use discord_ipc::DiscordRpcClient;
pub use error::PresenceError;
pub use manager::ManagerView;
pub use manager::RichPresenceManager;
pub use manager::disconnect_transition;
pub use manager::initialize_transition;
pub use manager::lemma_disconnect_idempotent;
pub use manager::lemma_failed_initialize_keeps_app_id;
pub use manager::lemma_initialize_records_latest;
pub use manager::lemma_reinitialize_closes_previous_first;

pub use payload::ActivityPayload;
pub use payload::PayloadView;
pub use payload::SecretsWire;
pub use payload::SecretsWireView;
pub use payload::build_payload;
pub use payload::payload_of;
pub use payload::LinkEvent;
pub use payload::WireView;
pub use payload::wire_of;
pub use payload::lemma_application_id_never_forwarded;
pub use payload::lemma_minimal_config_wire;
pub use payload::lemma_match_field_never_forwarded;
pub use payload::lemma_minimal_config_payload;
pub use payload::lemma_payload_forwards_fields;
pub use payload::with_application_id;
pub use payload::with_match_field;

pub use models::ActivityType;
pub use models::RichPresenceAssets;
pub use models::RichPresenceButton;
pub use models::RichPresenceConfig;
pub use models::RichPresenceParty;
pub use models::RichPresenceSecrets;
pub use models::RichPresenceTimestamps;
pub use models::AssetsView;
pub use models::ButtonView;
pub use models::ConfigView;
pub use models::PartyView;
pub use models::SecretsView;
pub use models::TimestampsView;
