//! Typed client-side schema for the NimbusPulse game-server coordinator.
//!
//! The coordinator speaks JSON over HTTPS. This crate holds the verified
//! schema and mapping layer: the request and response records, the JSON
//! document model they are encoded into and decoded from, the lenient
//! decoding rules for the service's irregular wire shapes, and the
//! per-operation outcome logic (status-code branching and the error
//! taxonomy). The network transport itself lives outside the library and
//! hands it plain values: a status code, the response body text, and the
//! body parsed into the document model.

pub mod billing;
pub mod client;
pub mod dcs_chat;
pub mod dcs_runtime;
pub mod dcs_settings;
pub mod error;
pub mod ids;
pub mod instance;
pub mod json;
pub mod files;
pub mod node;
pub mod node_game;
pub mod num;
pub mod region;
pub mod request;
pub mod system_resources;
pub mod system_resources_period;

pub use client::Client;
pub use ids::Uuid;
pub use instance::{Instance, InstanceStatus, Terrain};
pub use request::{CreateInstanceRequest, DcsSettingsPayload};
