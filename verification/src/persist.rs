pub mod error;
pub mod history;
pub mod profiles;
