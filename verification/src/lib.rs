//! A thin convenience layer over the `rumqttc` MQTT client, aimed at cloud
//! IoT brokers that require TLS mutual authentication.
//!
//! The crate assembles credential material into the client's connection
//! options (fixed TLS port, keep-alive interval and request-queue capacity),
//! exposes simplified `subscribe` / `publish` calls with explicit error
//! results, and provides an event-dispatch layer that routes incoming
//! notifications to handler callbacks in notification order.  All protocol
//! work — framing, QoS handshakes, reconnection — is delegated to the
//! wrapped MQTT library.

pub mod client;
pub mod errors;
pub mod events;
mod mqtt;
pub mod qos;
pub mod settings;
pub mod topic;
