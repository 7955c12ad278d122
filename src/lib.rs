//! Service composition engine and configuration stores for a multi-container
//! home-server stack: host classification, service descriptors, the manifest
//! compiler, and the enable/disable, secrets and user registries.

pub mod hardware;
pub mod secrets;
pub mod services;
pub mod config;
pub mod compose;
pub mod error;
pub mod toggle;
pub mod users;
pub mod cache;
pub mod text;
pub mod hooks;
pub mod host;
pub mod firewall;
pub mod system;
pub mod paths;
