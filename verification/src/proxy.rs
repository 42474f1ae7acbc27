//! The name-service proxy: it answers the machine's questions about users,
//! groups and hosts from the provider's directory, and remembers the answers
//! for a while.

pub mod cache;
pub mod config;
pub mod error;
pub mod groups_local;
pub mod handler;
pub mod health_check;
pub mod http_client;
pub mod logging;
pub mod server;
