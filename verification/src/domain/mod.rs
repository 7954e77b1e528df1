pub mod auth;
pub mod value_objects;
pub mod vault;
pub mod crypto;
