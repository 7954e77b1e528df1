use vstd::prelude::*;
use aes_gcm::aead::rand_core::RngCore;

verus! {

/// `rand::random::<[u8; 16]>()`: sixteen random bytes. Nothing is claimed of them.
#[verifier::external_body]
pub fn random_salt() -> (r: [u8; 16]) {
    rand::random()
}

/// `rand::random::<[u8; 12]>()`: twelve random bytes. Nothing is claimed of them.
#[verifier::external_body]
pub fn random_nonce() -> (r: [u8; 12]) {
    rand::random()
}

/// `OsRng.try_fill_bytes` on a buffer of `len` bytes: random bytes from the
/// operating system, or the text of its error. Claimed: a success has `len`
/// bytes; nothing is claimed of their values, nor of when the call fails.
/// Not stated: a buffer of `len` bytes may not be had on a given machine.
#[verifier::external_body]
pub fn os_try_fill(len: usize) -> (r: Result<Vec<u8>, String>)
    ensures
        r matches Ok(b) ==> b@.len() == len,
{
    let mut buf = vec![0u8; len];
    aes_gcm::aead::OsRng.try_fill_bytes(&mut buf).map_err(|e| e.to_string())?;
    Ok(buf)
}

/// `OsRng.fill_bytes` on a 12-byte buffer: random bytes from the operating
/// system. Nothing is claimed of them. It panics where the operating system
/// gives no randomness, which no argument decides.
#[verifier::external_body]
pub fn os_fill_12() -> (r: [u8; 12]) {
    let mut buf = [0u8; 12];
    aes_gcm::aead::OsRng.fill_bytes(&mut buf);
    buf
}

} // verus!
