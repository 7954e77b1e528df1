use vstd::prelude::*;

verus! {

/// How many times a lookup of a stored CV is tried when it times out.
pub const FIND_ATTEMPTS: u32 = 2;

/// The collection that holds the stored CVs.
pub fn vault_collection_name() -> (r: String)
    ensures
        r@ == "vaults"@,
{
    String::from_str("vaults")
}

/// Whether a lookup that timed out on its `attempts`-th try is tried again.
pub fn retry_after_timeout(attempts: u32) -> (r: bool)
    ensures
        r == (attempts < FIND_ATTEMPTS),
{
    attempts < FIND_ATTEMPTS
}

} // verus!
