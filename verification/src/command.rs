pub mod account;
pub mod account_manager;
