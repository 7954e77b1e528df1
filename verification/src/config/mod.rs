pub mod cors;
pub mod crypto;
pub mod database;
pub mod log;
pub mod rate_limit;
pub mod redis;
pub mod server;
pub mod settings;

pub use cors::HttpMethod;
pub use database::DatabaseConfig;
pub use log::{LogConfig, LogLevel};
pub use redis::RedisConfig;
pub use settings::Settings;
