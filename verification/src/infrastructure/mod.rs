pub mod crypto;
pub mod database;
pub mod redis;
pub mod redis_rate_limiter;
pub mod mongodb_vault;
