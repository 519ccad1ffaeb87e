pub mod cli;
pub mod codec;
pub mod text;
pub mod domain;
pub mod error;
pub mod persist;
pub mod proto;
pub mod session;
pub mod transport;
pub mod ui;
