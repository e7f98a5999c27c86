pub mod parse_account;
