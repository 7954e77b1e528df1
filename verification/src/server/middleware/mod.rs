pub mod redis_limiter;
