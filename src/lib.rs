//! A session relay for a coding agent: a registry and router that pairs
//! producers (local supervisors running the agent) with consumers (remote
//! viewers), the message taxonomy and handshake between them, and the
//! supervisors' reconnection and restart policies.

pub mod api;
pub mod backoff;
mod chars;
pub mod client_config;
pub mod consumer;
pub mod messages;
pub mod models;
pub mod project;
pub mod registry;
pub mod server;
pub mod server_config;
pub mod storage;
pub mod supervisor;
pub mod text;
pub mod update;
pub mod version;
