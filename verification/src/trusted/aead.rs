use vstd::prelude::*;
use aes_gcm::aead::{Aead, KeyInit};

verus! {

/// The AES-256-GCM ciphertext (with its 16-byte tag appended) of `plaintext`
/// under `key` and `nonce`, with no associated data.
pub uninterp spec fn aes_gcm_sealed(key: Seq<u8>, nonce: Seq<u8>, plaintext: Seq<u8>) -> Seq<u8>;

/// What AES-256-GCM decryption of `ciphertext` under `key` and `nonce` gives:
/// the plaintext, or `None` where the tag does not authenticate it.
pub uninterp spec fn aes_gcm_opened(key: Seq<u8>, nonce: Seq<u8>, ciphertext: Seq<u8>) -> Option<
    Seq<u8>,
>;

/// The largest plaintext that aes-gcm encrypts (`aes_gcm::P_MAX`).
pub open spec fn aes_gcm_max_plaintext() -> nat {
    0x10_0000_0000
}

/// `Aes256Gcm::new(key).encrypt(Nonce::from_slice(nonce), plaintext)`.
/// Claimed: it succeeds exactly when the plaintext is at most `P_MAX` bytes;
/// the result is the sealed text, and decrypting it with the same key and
/// nonce gives the plaintext back; the sealed text is the plaintext's length
/// plus the 16-byte tag. The failure carries aead's text for its
/// error. `Nonce::from_slice` panics unless the nonce has 12 bytes, which
/// `requires` leaves out.
#[verifier::external_body]
pub fn aes_gcm_encrypt(key: &[u8; 32], nonce: &[u8], plaintext: &[u8]) -> (r: Result<
    Vec<u8>,
    String,
>)
    requires
        nonce@.len() == 12,
    ensures
        r is Ok <==> plaintext@.len() <= aes_gcm_max_plaintext(),
        r matches Ok(c) ==> c@.len() == plaintext@.len() + 16,
        r matches Ok(c) ==> c@ == aes_gcm_sealed(key@, nonce@, plaintext@) && aes_gcm_opened(
            key@,
            nonce@,
            c@,
        ) == Some(plaintext@),
        r matches Err(e) ==> e@ == "aead::Error"@,
{
    aes_gcm::Aes256Gcm::new(key.into())
        .encrypt(aes_gcm::Nonce::from_slice(nonce), plaintext)
        .map_err(|e| e.to_string())
}

/// `Aes256Gcm::new(key).decrypt(Nonce::from_slice(nonce), ciphertext)`.
/// Claimed: the result is what decryption gives for these arguments.
/// `Nonce::from_slice` panics unless the nonce has 12 bytes, which
/// `requires` leaves out.
#[verifier::external_body]
pub fn aes_gcm_decrypt(key: &[u8; 32], nonce: &[u8], ciphertext: &[u8]) -> (r: Option<Vec<u8>>)
    requires
        nonce@.len() == 12,
    ensures
        match r {
            Some(p) => aes_gcm_opened(key@, nonce@, ciphertext@) == Some(p@),
            None => aes_gcm_opened(key@, nonce@, ciphertext@) is None,
        },
{
    aes_gcm::Aes256Gcm::new(key.into()).decrypt(aes_gcm::Nonce::from_slice(nonce), ciphertext).ok()
}

} // verus!
