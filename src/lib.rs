//! Provisioning core of an app-hosting controller: naming of engine and proxy
//! objects, container address discovery, the reverse-proxy route protocol, the
//! deploy state machine and the per-build event journal.
pub mod address;
pub mod deploy;
pub mod domain;
pub mod events;
pub mod model;
pub mod naming;
pub mod proxy;
pub mod records;
pub mod session;
pub mod slug;
pub mod team;
