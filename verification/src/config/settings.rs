use vstd::prelude::*;
use super::cors::CorsConfig;
use super::crypto::CryptoSettings;
use super::database::DatabaseConfig;
use super::log::LogConfig;
use super::rate_limit::RateLimitConfig;
use super::redis::RedisConfig;
use super::server::ServerConfig;

verus! {

/// All settings of the application.
#[derive(Debug)]
pub struct Settings {
    pub server: ServerConfig,
    pub log: LogConfig,
    pub database: DatabaseConfig,
    pub redis: RedisConfig,
    pub cors: CorsConfig,
    pub crypto: CryptoSettings,
    pub rate_limit: RateLimitConfig,
}

} // verus!
