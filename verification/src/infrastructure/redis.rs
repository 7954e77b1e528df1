//! The key-value cache: key layout, rate-limit decisions and the checks made
//! before connecting. The connections themselves are made by the application.

pub mod client;
pub mod keys;
pub mod rate_limiter;

use vstd::prelude::*;
use crate::errors::{AppError, AppResult, AppErrorView};

verus! {

/// The index of the logical database, which must fit in a byte; refused with
/// the service's message otherwise.
pub fn service_database_index(db: u32) -> (r: AppResult<u8>)
    ensures
        db <= 255 ==> (r matches Ok(i) && i == db),
        db > 255 ==> (r matches Err(e) && e@ == AppErrorView::ValidationError(
            "Redis DB index must be between 0-255"@,
        )),
{
    if db <= 255 {
        Ok(db as u8)
    } else {
        Err(AppError::ValidationError(String::from_str("Redis DB index must be between 0-255")))
    }
}

/// The expiry handed to the cache with a session token: the seconds as a
/// signed number, wrapping as a cast does.
pub fn token_expiry(ttl_sec: u64) -> (r: i64)
    ensures
        r == ttl_sec as i64,
{
    ttl_sec as i64
}

} // verus!
