pub mod bank;
pub mod bank_config;
pub mod kamino_mocks_state;
pub mod price;
pub mod user_account;
