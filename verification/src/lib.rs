pub mod amount;
pub mod command;
pub mod error;
pub mod hex_str;
pub mod types;
