use vstd::prelude::*;
use crate::errors::AppResult;

verus! {

/// Turns the plain bytes of a decrypted document into a value.
pub trait VaultDecoder<T> {
    fn decode(&self, bytes: &[u8]) -> AppResult<T>;
}

} // verus!
