pub mod channel;
pub mod channel_url;
pub mod config;
pub mod config_export;
pub mod ids;
pub mod message;
pub mod node;
pub mod profile;
pub mod session;
pub mod snapshot;
pub mod stats;
pub mod traceroute;
