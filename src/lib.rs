//! Keeps DNS records at a provider in step with the host's public address.
//!
//! The crate holds the decisions of the update engine: error classification,
//! configuration validation, the retry policy of the transport, the per-record
//! update cycle, the state store, the event bus, the configuration watcher and
//! the registry of running update services.
pub mod config;
pub mod dns;
pub mod error;
pub mod events;
pub mod factory;
pub mod ip;
pub mod loader;
pub mod settings;
pub mod state;
pub mod store;
pub mod transport;
pub mod update;
