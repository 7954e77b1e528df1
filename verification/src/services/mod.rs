pub mod user_service;
pub mod vault;
pub mod vault_service;
