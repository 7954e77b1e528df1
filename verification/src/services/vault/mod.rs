pub mod vault_decoder;
pub mod vault_service;
