pub mod crypto;
pub mod decimal;
