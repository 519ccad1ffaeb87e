pub mod meshtastic;
pub mod port;
pub mod wire;
pub mod schema;
