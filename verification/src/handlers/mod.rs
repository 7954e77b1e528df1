pub mod auth;
pub mod vault;
