use vstd::prelude::*;
use vstd::utf8::encode_utf8;
use crate::config::crypto::CryptoSettings;
use crate::domain::crypto::EncryptedPayload;
use crate::errors::{AppError, AppResult, AppErrorView, bytes_result_view};
use crate::trusted::kdf::{
    argon2id_derive, argon2id_key, argon2_params_valid, argon2_params_error, argon2_inputs_valid,
    argon2_inputs_error, KdfFailure,
};
use crate::trusted::aead::{aes_gcm_encrypt, aes_gcm_decrypt, aes_gcm_sealed, aes_gcm_opened, aes_gcm_max_plaintext};
use crate::trusted::entropy::{os_try_fill, os_fill_12};
use crate::utils::decimal::{decimal, decimal_text};

verus! {

/// Encryption of documents with AES-256-GCM under a key that Argon2id derives
/// from a password with the server's secret appended, with configured costs.
pub struct AesCryptoService {
    settings: CryptoSettings,
}

/// Whether argon2's check of the configured costs stays within `u32`: it
/// computes `p_cost * 8` once the memory cost is at least 8.
pub open spec fn costs_in_range(s: CryptoSettings) -> bool {
    s.argon2_m_cost < 8 || s.argon2_p_cost <= 0x1FFF_FFFF
}

/// The error for a salt of another length than the configured one.
pub open spec fn salt_length_error(s: CryptoSettings) -> AppErrorView {
    AppErrorView::CryptoError("Invalid salt length: expected "@ + decimal(s.salt_len as nat) + " bytes"@)
}

/// Whether decrypting a payload gets past the length checks to key derivation.
pub open spec fn derivation_reached(s: CryptoSettings, payload: (Seq<u8>, Seq<u8>, Seq<u8>)) -> bool {
    payload.1.len() == s.salt_len && payload.2.len() == 12
}

/// Where decrypting a payload reaches argon2's check of costs whose
/// `p_cost * 8` overflows `u32`, which panics.
pub open spec fn decrypt_panics(s: CryptoSettings, payload: (Seq<u8>, Seq<u8>, Seq<u8>)) -> bool {
    derivation_reached(s, payload) && !costs_in_range(s)
}

/// What deriving a key from `password` with the server's secret appended gives.
pub open spec fn peppered_derivation(s: CryptoSettings, password: Seq<char>, salt: Seq<u8>) -> Result<
    Seq<u8>,
    AppErrorView,
> {
    let pwd = encode_utf8(password + s.secret_key@);
    if !argon2_params_valid(s.argon2_m_cost, s.argon2_t_cost, s.argon2_p_cost) {
        Err(
            AppErrorView::CryptoError(
                "Argon2 params invalid: "@ + argon2_params_error(
                    s.argon2_m_cost,
                    s.argon2_t_cost,
                    s.argon2_p_cost,
                ),
            ),
        )
    } else if !argon2_inputs_valid(pwd.len(), salt.len()) {
        Err(
            AppErrorView::CryptoError(
                "Argon2 derivation failed: "@ + argon2_inputs_error(pwd.len(), salt.len()),
            ),
        )
    } else {
        Ok(argon2id_key(s.argon2_m_cost, s.argon2_t_cost, s.argon2_p_cost, pwd, salt))
    }
}

/// The UTF-8 bytes of two texts one after the other are the bytes of the first
/// followed by the bytes of the second.
pub proof fn lemma_utf8_of_concat(a: Seq<char>, b: Seq<char>)
    ensures
        encode_utf8(a + b) == encode_utf8(a) + encode_utf8(b),
    decreases a.len(),
{
    if a.len() == 0 {
        assert(a + b =~= b);
        assert(encode_utf8(a) + encode_utf8(b) =~= encode_utf8(b));
    } else {
        lemma_utf8_of_concat(a.drop_first(), b);
        assert((a + b).drop_first() =~= a.drop_first() + b);
        assert((a + b)[0] == a[0]);
        assert(encode_utf8(a + b) =~= encode_utf8(a) + encode_utf8(b));
    }
}

/// The key of the service: Argon2id (with the configured costs) over the
/// UTF-8 bytes of the password followed by those of the server's secret.
/// Costs that argon2 refuses give its error for them; then a password and
/// secret longer than 2^32 - 1 bytes together, or a salt outside 8 to
/// 2^32 - 1 bytes, give argon2's error for that input.
pub proof fn law_key_of_password_then_secret(s: CryptoSettings, password: Seq<char>, salt: Seq<u8>)
    ensures
        ({
            let (m, t, p) = (s.argon2_m_cost, s.argon2_t_cost, s.argon2_p_cost);
            let input = encode_utf8(password) + encode_utf8(s.secret_key@);
            &&& !argon2_params_valid(m, t, p) ==> peppered_derivation(s, password, salt) == Err::<
                Seq<u8>,
                AppErrorView,
            >(AppErrorView::CryptoError("Argon2 params invalid: "@ + argon2_params_error(m, t, p)))
            &&& argon2_params_valid(m, t, p) && !argon2_inputs_valid(input.len(), salt.len())
                ==> peppered_derivation(s, password, salt) == Err::<Seq<u8>, AppErrorView>(
                AppErrorView::CryptoError(
                    "Argon2 derivation failed: "@ + argon2_inputs_error(input.len(), salt.len()),
                ),
            )
            &&& argon2_params_valid(m, t, p) && argon2_inputs_valid(input.len(), salt.len())
                ==> peppered_derivation(s, password, salt) == Ok::<Seq<u8>, AppErrorView>(
                argon2id_key(m, t, p, input, salt),
            )
        }),
{
    lemma_utf8_of_concat(password, s.secret_key@);
}

/// The payload (ciphertext, salt, nonce) that encrypting `data` gives for a
/// given salt and nonce; or the error met on the way.
pub open spec fn sealed_payload(
    s: CryptoSettings,
    data: Seq<u8>,
    password: Seq<char>,
    salt: Seq<u8>,
    nonce: Seq<u8>,
) -> Result<(Seq<u8>, Seq<u8>, Seq<u8>), AppErrorView> {
    match peppered_derivation(s, password, salt) {
        Err(e) => Err(e),
        Ok(key) => if data.len() <= aes_gcm_max_plaintext() {
            Ok((aes_gcm_sealed(key, nonce, data), salt, nonce))
        } else {
            Err(AppErrorView::CryptoError("Encryption failed: "@ + "aead::Error"@))
        },
    }
}

/// What decrypting a payload with `password` gives.
pub open spec fn opened_payload(
    s: CryptoSettings,
    payload: (Seq<u8>, Seq<u8>, Seq<u8>),
    password: Seq<char>,
) -> Result<Seq<u8>, AppErrorView> {
    let (ciphertext, salt, nonce) = payload;
    if salt.len() != s.salt_len {
        Err(salt_length_error(s))
    } else if nonce.len() != 12 {
        Err(AppErrorView::CryptoError("Invalid nonce length: expected 12 bytes"@))
    } else {
        match peppered_derivation(s, password, salt) {
            Err(e) => Err(e),
            Ok(key) => match aes_gcm_opened(key, nonce, ciphertext) {
                None => Err(
                    AppErrorView::CryptoError(
                        "Decryption failed: check password or data integrity"@,
                    ),
                ),
                Some(p) => Ok(p),
            },
        }
    }
}

/// The value of a result that carries a payload.
pub open spec fn payload_result_view(r: AppResult<EncryptedPayload>) -> Result<
    (Seq<u8>, Seq<u8>, Seq<u8>),
    AppErrorView,
> {
    match r {
        Ok(p) => Ok(p@),
        Err(e) => Err(e@),
    }
}

impl AesCryptoService {
    /// The settings that this service was made with.
    pub closed spec fn config(&self) -> CryptoSettings {
        self.settings
    }

    /// Makes a service with the given settings.
    pub fn new(settings: CryptoSettings) -> (r: Self)
        ensures
            r.config() == settings,
    {
        Self { settings }
    }

    /// Derives a 32-byte key from `password` with the server's secret
    /// appended, with Argon2id (version 0x13) and the configured costs.
    pub fn derive_key(&self, password: &str, salt: &[u8]) -> (r: AppResult<[u8; 32]>)
        requires
            costs_in_range(self.config()),
        ensures
            match r {
                Ok(k) => peppered_derivation(self.config(), password@, salt@) == Ok::<
                    Seq<u8>,
                    AppErrorView,
                >(k@),
                Err(e) => peppered_derivation(self.config(), password@, salt@) == Err::<
                    Seq<u8>,
                    AppErrorView,
                >(e@),
            },
    {
        let mut password_with_pepper = String::from_str(password);
        password_with_pepper.append(self.settings.secret_key.as_str());
        match argon2id_derive(
            self.settings.argon2_m_cost,
            self.settings.argon2_t_cost,
            self.settings.argon2_p_cost,
            password_with_pepper.as_str().as_bytes(),
            salt,
        ) {
            Ok(key) => Ok(key),
            Err(KdfFailure::Params(e)) => {
                let mut m = String::from_str("Argon2 params invalid: ");
                m.append(e.as_str());
                Err(AppError::CryptoError(m))
            },
            Err(KdfFailure::Derivation(e)) => {
                let mut m = String::from_str("Argon2 derivation failed: ");
                m.append(e.as_str());
                Err(AppError::CryptoError(m))
            },
        }
    }

    /// The configured salt length.
    pub fn salt_len(&self) -> (n: usize)
        ensures
            n == self.config().salt_len,
    {
        self.settings.salt_len
    }

    /// Whether the configured costs keep argon2's check within `u32`.
    pub fn accepts_costs(&self) -> (b: bool)
        ensures
            b == costs_in_range(self.config()),
    {
        self.settings.argon2_m_cost < 8 || self.settings.argon2_p_cost <= 0x1FFF_FFFF
    }

    /// Encrypts `data` under `password` with the given salt and nonce. What it
    /// gives with a salt of the configured length, `decrypt` with the same
    /// password turns back into `data`.
    pub fn encrypt_with(&self, data: &[u8], password: &str, salt: &[u8], nonce: &[u8; 12]) -> (r:
        AppResult<EncryptedPayload>)
        requires
            costs_in_range(self.config()),
        ensures
            payload_result_view(r) == sealed_payload(self.config(), data@, password@, salt@, nonce@),
            r matches Ok(p) ==> p@.0.len() == data@.len() + 16,
            salt@.len() == self.config().salt_len ==> (r matches Ok(p) ==> opened_payload(
                self.config(),
                p@,
                password@,
            ) == Ok::<Seq<u8>, AppErrorView>(data@)),
    {
        let key = match self.derive_key(password, salt) {
            Ok(k) => k,
            Err(e) => return Err(e),
        };
        let ciphertext = match aes_gcm_encrypt(&key, nonce, data) {
            Ok(c) => c,
            Err(e) => {
                let mut m = String::from_str("Encryption failed: ");
                m.append(e.as_str());
                return Err(AppError::CryptoError(m));
            },
        };
        let mut salt_v: Vec<u8> = Vec::new();
        salt_v.extend_from_slice(salt);
        let mut nonce_v: Vec<u8> = Vec::new();
        nonce_v.extend_from_slice(nonce);
        assert(salt_v@ =~= salt@);
        assert(nonce_v@ =~= nonce@);
        Ok(EncryptedPayload { ciphertext, salt: salt_v, nonce: nonce_v })
    }

    /// Encrypts `data` under `password` with a random salt of the configured
    /// length and a random 12-byte nonce from the operating system; a
    /// configured nonce length other than AES-GCM's 12 bytes is refused.
    /// Whatever the random values, `decrypt` with the same password turns a
    /// successful result back into `data`.
    pub fn encrypt(&self, data: &[u8], password: &str) -> (r: AppResult<EncryptedPayload>)
        requires
            self.config().nonce_len == 12 ==> costs_in_range(self.config()),
        ensures
            self.config().nonce_len != 12 ==> (r matches Err(e) && e@ == AppErrorView::CryptoError(
                "Invalid nonce length: expected 12 bytes"@,
            )),
            r matches Ok(p) ==> p@.0.len() == data@.len() + 16 && p@.1.len()
                == self.config().salt_len && p@.2.len() == self.config().nonce_len,
            r matches Ok(p) ==> exists|salt: Seq<u8>, nonce: Seq<u8>|
                salt.len() == self.config().salt_len && nonce.len() == 12 && sealed_payload(
                    self.config(),
                    data@,
                    password@,
                    salt,
                    nonce,
                ) == Ok::<(Seq<u8>, Seq<u8>, Seq<u8>), AppErrorView>(p@),
            r matches Ok(p) ==> opened_payload(self.config(), p@, password@) == Ok::<
                Seq<u8>,
                AppErrorView,
            >(data@),
            self.config().nonce_len == 12 ==> (r matches Err(e) ==> (exists|m: Seq<char>|
                e@ == AppErrorView::CryptoError("RNG error: "@ + m)) || (exists|
                salt: Seq<u8>,
                nonce: Seq<u8>,
            |
                salt.len() == self.config().salt_len && nonce.len() == 12 && sealed_payload(
                    self.config(),
                    data@,
                    password@,
                    salt,
                    nonce,
                ) == Err::<(Seq<u8>, Seq<u8>, Seq<u8>), AppErrorView>(e@))),
    {
        if self.settings.nonce_len != 12 {
            return Err(
                AppError::CryptoError(String::from_str("Invalid nonce length: expected 12 bytes")),
            );
        }
        let salt = match os_try_fill(self.settings.salt_len) {
            Ok(s) => s,
            Err(e) => {
                let mut m = String::from_str("RNG error: ");
                m.append(e.as_str());
                return Err(AppError::CryptoError(m));
            },
        };
        let nonce = os_fill_12();
        self.encrypt_with(data, password, salt.as_slice(), &nonce)
    }

    /// Decrypts a payload with `password`.
    pub fn decrypt(&self, payload: &EncryptedPayload, password: &str) -> (r: AppResult<Vec<u8>>)
        requires
            !decrypt_panics(self.config(), payload@),
        ensures
            bytes_result_view(r) == opened_payload(self.config(), payload@, password@),
    {
        if payload.salt.len() != self.settings.salt_len {
            let mut m = String::from_str("Invalid salt length: expected ");
            let n = decimal_text(self.settings.salt_len as u64);
            m.append(n.as_str());
            m.append(" bytes");
            return Err(AppError::CryptoError(m));
        }
        if payload.nonce.len() != 12 {
            return Err(
                AppError::CryptoError(String::from_str("Invalid nonce length: expected 12 bytes")),
            );
        }
        let key = match self.derive_key(password, payload.salt.as_slice()) {
            Ok(k) => k,
            Err(e) => return Err(e),
        };
        match aes_gcm_decrypt(&key, payload.nonce.as_slice(), payload.ciphertext.as_slice()) {
            Some(p) => Ok(p),
            None => Err(
                AppError::CryptoError(
                    String::from_str("Decryption failed: check password or data integrity"),
                ),
            ),
        }
    }
}

} // verus!
