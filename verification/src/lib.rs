//! Session-orchestration core of a multi-session MQTT control surface.
//!
//! The crate models and verifies the layer that accepts session-creation
//! requests, supervises one protocol-driving unit of work per session,
//! bridges a blocking command loop and a cooperative event loop, and
//! forwards protocol events plus lifecycle notifications to a single
//! consumer through bounded, drop-on-full relays.

pub mod broker;
pub mod client;
pub mod driver;
pub mod message;
pub mod options;
pub mod orchestrator;
pub mod relay;
pub mod subscription;
pub mod tabs;
