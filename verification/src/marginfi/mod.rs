pub mod consts;
pub mod errors;
pub mod events;
pub mod health;
pub mod types;
pub mod user;
