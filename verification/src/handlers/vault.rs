use vstd::prelude::*;

verus! {

/// A request to unlock a CV with an access key.
#[derive(Debug)]
pub struct UnlockRequest {
    pub cv_id: String,
    pub access_key: String,
}

} // verus!
