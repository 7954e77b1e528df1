use vstd::prelude::*;
use vstd::utf8::{encode_utf8, valid_utf8, decode_utf8};
use crate::errors::{AppError, AppResult, AppErrorView, text_result_view};
use crate::trusted::encoding::{base64_encode, base64_decode, base64_encoded, base64_decoded, base64_encoded_len};
use crate::trusted::kdf::{argon2id_derive, argon2id_key, argon2_inputs_valid, argon2_inputs_error, KdfFailure};
use crate::trusted::aead::{aes_gcm_encrypt, aes_gcm_decrypt, aes_gcm_sealed, aes_gcm_opened, aes_gcm_max_plaintext};
use crate::trusted::entropy::{random_salt, random_nonce};
use crate::trusted::text::utf8_text;

verus! {

broadcast use {vstd::utf8::encode_utf8_valid_utf8, vstd::utf8::encode_utf8_decode_utf8};

/// Password-based encryption of texts, with every part stored as base64:
/// the key is Argon2id with argon2's default costs, the cipher AES-256-GCM.
pub struct CryptoUtils;

/// argon2's default memory cost in KiB (`Params::DEFAULT_M_COST`).
pub const DEFAULT_M_COST: u32 = 19456;

/// argon2's default number of passes (`Params::DEFAULT_T_COST`).
pub const DEFAULT_T_COST: u32 = 2;

/// argon2's default parallelism (`Params::DEFAULT_P_COST`).
pub const DEFAULT_P_COST: u32 = 1;

/// The key derived from a password and a salt with argon2's defaults.
pub open spec fn default_key(password: Seq<char>, salt: Seq<u8>) -> Seq<u8> {
    argon2id_key(DEFAULT_M_COST, DEFAULT_T_COST, DEFAULT_P_COST, encode_utf8(password), salt)
}

/// What key derivation with argon2's defaults gives for a password and a salt.
pub open spec fn default_derivation(password: Seq<char>, salt: Seq<u8>) -> Result<
    Seq<u8>,
    AppErrorView,
> {
    let n = encode_utf8(password).len();
    if argon2_inputs_valid(n, salt.len()) {
        Ok(default_key(password, salt))
    } else {
        Err(AppErrorView::CryptoError("Argon2 failure: "@ + argon2_inputs_error(n, salt.len())))
    }
}

/// The key of a password and a salt is Argon2id at argon2's default costs
/// (19456 KiB of memory, 2 passes, parallelism 1) over the password's UTF-8
/// bytes; a password longer than 2^32 - 1 bytes, or a salt outside 8 to
/// 2^32 - 1 bytes, gives argon2's error for that input.
pub proof fn law_default_costs(password: Seq<char>, salt: Seq<u8>)
    ensures
        argon2_inputs_valid(encode_utf8(password).len(), salt.len()) ==> default_derivation(
            password,
            salt,
        ) == Ok::<Seq<u8>, AppErrorView>(
            argon2id_key(19456u32, 2u32, 1u32, encode_utf8(password), salt),
        ),
        !argon2_inputs_valid(encode_utf8(password).len(), salt.len()) ==> default_derivation(
            password,
            salt,
        ) == Err::<Seq<u8>, AppErrorView>(
            AppErrorView::CryptoError(
                "Argon2 failure: "@ + argon2_inputs_error(encode_utf8(password).len(), salt.len()),
            ),
        ),
{
}

/// The three base64 texts (ciphertext, salt, nonce) under which `data` is
/// stored, for a given salt and nonce; or the error met on the way.
pub open spec fn sealed_texts(
    data: Seq<char>,
    password: Seq<char>,
    salt: Seq<u8>,
    nonce: Seq<u8>,
) -> Result<(Seq<char>, Seq<char>, Seq<char>), AppErrorView> {
    match default_derivation(password, salt) {
        Err(e) => Err(e),
        Ok(key) => if encode_utf8(data).len() <= aes_gcm_max_plaintext() {
            Ok(
                (
                    base64_encoded(aes_gcm_sealed(key, nonce, encode_utf8(data))),
                    base64_encoded(salt),
                    base64_encoded(nonce),
                ),
            )
        } else {
            Err(AppErrorView::CryptoError("Encryption failure: "@ + "aead::Error"@))
        },
    }
}

/// Whether the base64 text of the ciphertext of `data` fits in `usize` where
/// encryption reaches it (always so on a 64-bit target). Where it does not,
/// `STANDARD.encode` panics on the length.
pub open spec fn encodable(data: Seq<char>) -> bool {
    encode_utf8(data).len() <= aes_gcm_max_plaintext() ==> base64_encoded_len(
        encode_utf8(data).len() + 16,
    ) <= usize::MAX
}

/// Whether each of the three texts is valid base64 of the expected length:
/// a 16-byte salt, a 12-byte nonce, and a ciphertext 16 bytes (the tag)
/// longer than the `plain_len` bytes that were encrypted.
pub open spec fn texts_have_lengths(
    c: Seq<char>,
    s: Seq<char>,
    n: Seq<char>,
    plain_len: nat,
) -> bool {
    &&& base64_decoded(c) is Some
    &&& base64_decoded(c)->0.len() == plain_len + 16
    &&& base64_decoded(s) is Some
    &&& base64_decoded(s)->0.len() == 16
    &&& base64_decoded(n) is Some
    &&& base64_decoded(n)->0.len() == 12
}

/// Whether the three texts of an encryption result are those of `r`.
pub open spec fn texts_result_view(r: AppResult<(String, String, String)>) -> Result<
    (Seq<char>, Seq<char>, Seq<char>),
    AppErrorView,
> {
    match r {
        Ok((c, s, n)) => Ok((c@, s@, n@)),
        Err(e) => Err(e@),
    }
}

/// Where decrypting stored texts reaches `Nonce::from_slice` with a nonce
/// that is not 12 bytes long, which panics.
pub open spec fn decrypt_panics(
    ciphertext: Seq<char>,
    password: Seq<char>,
    salt: Seq<char>,
    nonce: Seq<char>,
) -> bool {
    &&& base64_decoded(ciphertext) is Some
    &&& base64_decoded(salt) is Some
    &&& base64_decoded(nonce) is Some
    &&& argon2_inputs_valid(encode_utf8(password).len(), base64_decoded(salt)->0.len())
    &&& base64_decoded(nonce)->0.len() != 12
}

/// What decrypting the stored texts gives: the plain text, or the first error met.
pub open spec fn opened_text(
    ciphertext: Seq<char>,
    password: Seq<char>,
    salt: Seq<char>,
    nonce: Seq<char>,
) -> Result<Seq<char>, AppErrorView> {
    match base64_decoded(ciphertext) {
        None => Err(AppErrorView::ValidationError("Invalid ciphertext base64"@)),
        Some(c) => match base64_decoded(salt) {
            None => Err(AppErrorView::ValidationError("Invalid salt base64"@)),
            Some(s) => match base64_decoded(nonce) {
                None => Err(AppErrorView::ValidationError("Invalid nonce base64"@)),
                Some(n) => match default_derivation(password, s) {
                    Err(e) => Err(e),
                    Ok(key) => match aes_gcm_opened(key, n, c) {
                        None => Err(
                            AppErrorView::CryptoError("Invalid access key or corrupted data"@),
                        ),
                        Some(p) => if valid_utf8(p) {
                            Ok(decode_utf8(p))
                        } else {
                            Err(AppErrorView::Internal("Data corrupted: Invalid UTF-8 sequence"@))
                        },
                    },
                },
            },
        },
    }
}

impl CryptoUtils {
    /// Derives a 32-byte key from a password and a salt with Argon2id and argon2's default costs.
    pub fn derive_key(password: &str, salt: &[u8]) -> (r: AppResult<[u8; 32]>)
        ensures
            match r {
                Ok(k) => default_derivation(password@, salt@) == Ok::<Seq<u8>, AppErrorView>(k@),
                Err(e) => default_derivation(password@, salt@) == Err::<Seq<u8>, AppErrorView>(
                    e@,
                ),
            },
    {
        match argon2id_derive(
            DEFAULT_M_COST,
            DEFAULT_T_COST,
            DEFAULT_P_COST,
            password.as_bytes(),
            salt,
        ) {
            Ok(key) => Ok(key),
            Err(KdfFailure::Params(e)) | Err(KdfFailure::Derivation(e)) => {
                let mut m = String::from_str("Argon2 failure: ");
                m.append(e.as_str());
                Err(AppError::CryptoError(m))
            },
        }
    }

    /// Encrypts `data` under `password` with the given salt and nonce, and
    /// gives (ciphertext, salt, nonce) as base64. What it gives, decryption
    /// with the same password turns back into `data`.
    pub fn encrypt_with(data: &str, password: &str, salt: &[u8; 16], nonce: &[u8; 12]) -> (r:
        AppResult<(String, String, String)>)
        requires
            encodable(data@),
        ensures
            texts_result_view(r) == sealed_texts(data@, password@, salt@, nonce@),
            r matches Ok((c, s, n)) ==> texts_have_lengths(c@, s@, n@, encode_utf8(data@).len()),
            r matches Ok((c, s, n)) ==> opened_text(c@, password@, s@, n@) == Ok::<
                Seq<char>,
                AppErrorView,
            >(data@) && !decrypt_panics(c@, password@, s@, n@),
    {
        let salt_b64 = base64_encode(salt);
        let nonce_b64 = base64_encode(nonce);
        let key = match Self::derive_key(password, salt) {
            Ok(k) => k,
            Err(e) => return Err(e),
        };
        let ciphertext = match aes_gcm_encrypt(&key, nonce, data.as_bytes()) {
            Ok(c) => c,
            Err(e) => {
                let mut m = String::from_str("Encryption failure: ");
                m.append(e.as_str());
                return Err(AppError::CryptoError(m));
            },
        };
        let c_b64 = base64_encode(ciphertext.as_slice());
        proof {
            assert(base64_decoded(c_b64@) == Some(ciphertext@));
        }
        Ok((c_b64, salt_b64, nonce_b64))
    }

    /// Encrypts `data` under `password` with a random salt and nonce, and
    /// gives (ciphertext, salt, nonce) as base64. Whatever the random values,
    /// decryption with the same password turns the result back into `data`.
    pub fn encrypt(data: &str, password: &str) -> (r: AppResult<(String, String, String)>)
        requires
            encodable(data@),
        ensures
            r matches Ok((c, s, n)) ==> texts_have_lengths(c@, s@, n@, encode_utf8(data@).len()),
            r is Ok <==> default_derivation(password@, Seq::new(16, |i: int| 0u8)) is Ok
                && encode_utf8(data@).len() <= aes_gcm_max_plaintext(),
            r matches Ok((c, s, n)) ==> exists|salt: Seq<u8>, nonce: Seq<u8>|
                salt.len() == 16 && nonce.len() == 12 && sealed_texts(data@, password@, salt, nonce)
                    == Ok::<(Seq<char>, Seq<char>, Seq<char>), AppErrorView>((c@, s@, n@)),
            r matches Ok((c, s, n)) ==> opened_text(c@, password@, s@, n@) == Ok::<
                Seq<char>,
                AppErrorView,
            >(data@) && !decrypt_panics(c@, password@, s@, n@),
            r matches Err(e) ==> exists|salt: Seq<u8>, nonce: Seq<u8>|
                salt.len() == 16 && nonce.len() == 12 && sealed_texts(data@, password@, salt, nonce)
                    == Err::<(Seq<char>, Seq<char>, Seq<char>), AppErrorView>(e@),
    {
        let salt = random_salt();
        let nonce = random_nonce();
        let r = Self::encrypt_with(data, password, &salt, &nonce);
        proof {
            let ghost z = Seq::new(16, |i: int| 0u8);
            assert(argon2_inputs_valid(encode_utf8(password@).len(), z.len())
                == argon2_inputs_valid(encode_utf8(password@).len(), salt@.len()));
        }
        r
    }

    /// Decrypts the stored base64 texts with `password` and gives the plain text.
    pub fn decrypt(
        encrypted_data_b64: &str,
        password: &str,
        salt_b64: &str,
        nonce_b64: &str,
    ) -> (r: AppResult<String>)
        requires
            !decrypt_panics(encrypted_data_b64@, password@, salt_b64@, nonce_b64@),
        ensures
            text_result_view(r) == opened_text(
                encrypted_data_b64@,
                password@,
                salt_b64@,
                nonce_b64@,
            ),
    {
        let ciphertext = match base64_decode(encrypted_data_b64) {
            Some(c) => c,
            None => {
                return Err(AppError::ValidationError(String::from_str("Invalid ciphertext base64")))
            },
        };
        let salt_raw = match base64_decode(salt_b64) {
            Some(s) => s,
            None => return Err(AppError::ValidationError(String::from_str("Invalid salt base64"))),
        };
        let nonce_raw = match base64_decode(nonce_b64) {
            Some(n) => n,
            None => return Err(AppError::ValidationError(String::from_str("Invalid nonce base64"))),
        };
        let key_bytes = match Self::derive_key(password, salt_raw.as_slice()) {
            Ok(k) => k,
            Err(e) => return Err(e),
        };
        let decrypted = match aes_gcm_decrypt(&key_bytes, nonce_raw.as_slice(), ciphertext.as_slice()) {
            Some(p) => p,
            None => {
                return Err(
                    AppError::CryptoError(String::from_str("Invalid access key or corrupted data")),
                )
            },
        };
        match utf8_text(decrypted) {
            Some(s) => Ok(s),
            None => Err(AppError::Internal(String::from_str("Data corrupted: Invalid UTF-8 sequence"))),
        }
    }

    /// `decrypt` where it does not panic; `None` exactly where the stored nonce
    /// would reach `Nonce::from_slice` with a length other than 12.
    pub fn decrypt_checked(
        encrypted_data_b64: &str,
        password: &str,
        salt_b64: &str,
        nonce_b64: &str,
    ) -> (r: Option<AppResult<String>>)
        ensures
            r is None <==> decrypt_panics(encrypted_data_b64@, password@, salt_b64@, nonce_b64@),
            r matches Some(v) ==> text_result_view(v) == opened_text(
                encrypted_data_b64@,
                password@,
                salt_b64@,
                nonce_b64@,
            ),
    {
        if Self::decrypt_would_panic(encrypted_data_b64, password, salt_b64, nonce_b64) {
            None
        } else {
            Some(Self::decrypt(encrypted_data_b64, password, salt_b64, nonce_b64))
        }
    }

    /// Tests whether `decrypt` would reach `Nonce::from_slice` with a nonce of
    /// a length other than 12.
    pub fn decrypt_would_panic(
        encrypted_data_b64: &str,
        password: &str,
        salt_b64: &str,
        nonce_b64: &str,
    ) -> (b: bool)
        ensures
            b == decrypt_panics(encrypted_data_b64@, password@, salt_b64@, nonce_b64@),
    {
        let c = base64_decode(encrypted_data_b64);
        let s = base64_decode(salt_b64);
        let n = base64_decode(nonce_b64);
        match (c, s, n) {
            (Some(_), Some(s), Some(n)) => {
                let pw_len = password.as_bytes().len();
                pw_len <= 0xFFFF_FFFF && 8 <= s.len() && s.len() <= 0xFFFF_FFFF && n.len() != 12
            },
            _ => false,
        }
    }
}

} // verus!
