use vstd::prelude::*;
use crate::errors::{AppError, AppResult, AppErrorView};

verus! {

/// The index of the logical database, which must fit in a byte; refused with
/// the connection manager's message otherwise.
pub fn manager_database_index(db: u32) -> (r: AppResult<u8>)
    ensures
        db <= 255 ==> (r matches Ok(i) && i == db),
        db > 255 ==> (r matches Err(e) && e@ == AppErrorView::ValidationError(
            "Index bazy danych Redis musi mieścić się w zakresie 0-255"@,
        )),
{
    if db <= 255 {
        Ok(db as u8)
    } else {
        Err(
            AppError::ValidationError(
                String::from_str("Index bazy danych Redis musi mieścić się w zakresie 0-255"),
            ),
        )
    }
}

/// The expiry of a stored value in seconds, which the cache takes as a signed
/// number; too large a value is refused.
pub fn expiration_seconds(ttl_sec: u64) -> (r: AppResult<i64>)
    ensures
        ttl_sec <= i64::MAX ==> (r matches Ok(s) && s == ttl_sec),
        ttl_sec > i64::MAX ==> (r matches Err(e) && e@ == AppErrorView::ValidationError(
            "TTL jest zbyt duży"@,
        )),
{
    if ttl_sec <= i64::MAX as u64 {
        Ok(ttl_sec as i64)
    } else {
        Err(AppError::ValidationError(String::from_str("TTL jest zbyt duży")))
    }
}

} // verus!
