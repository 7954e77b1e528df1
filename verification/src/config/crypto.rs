use vstd::prelude::*;

verus! {

/// Settings of the key derivation and encryption of stored documents.
#[derive(Debug, Clone)]
pub struct CryptoSettings {
    /// The server's secret ("pepper") appended to every password.
    pub secret_key: String,
    /// Lifetime of issued tokens, in hours.
    pub token_expiry_hours: u64,
    /// Argon2 memory cost in KiB (19456 for 19 MiB is the usual choice).
    pub argon2_m_cost: u32,
    /// Argon2 number of passes (for example 2).
    pub argon2_t_cost: u32,
    /// Argon2 parallelism (for example 1).
    pub argon2_p_cost: u32,
    /// Length of the random salt that encryption draws, in bytes (usually 16);
    /// decryption accepts salts of this length only.
    pub salt_len: usize,
    /// Length of AES-GCM nonces in bytes: AES-256-GCM takes 12, and
    /// encryption refuses any other length.
    pub nonce_len: usize,
}

} // verus!
