//! The boundary with code that is not verified here: std text functions that
//! vstd leaves unspecified, and the outside crates that do the cryptography,
//! the encodings and the randomness. Every item here is believed, not proved;
//! each says which function it calls and what it claims of it.

pub mod text;
pub mod encoding;
pub mod kdf;
pub mod aead;
pub mod entropy;
pub mod object_id;
