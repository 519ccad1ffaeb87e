pub mod ble;
pub mod error;
pub mod mock;
