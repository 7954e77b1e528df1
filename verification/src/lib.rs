//! Verified core of an HTTP backend that stores encrypted CV documents:
//! configuration values, domain values, error mapping, key derivation and
//! authenticated encryption of stored payloads, and rate-limiting decisions.

pub mod errors;
pub mod trusted;
pub mod utils;
pub mod config;
pub mod domain;
pub mod infrastructure;
pub mod server;
pub mod services;
pub mod application;
pub mod handlers;

