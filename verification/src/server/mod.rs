pub mod middleware;
pub mod rate_limiter;
