use vstd::prelude::*;
use crate::domain::crypto::{EncryptedPayload, stored_payload};
use crate::domain::vault::EncryptedCV;
use crate::errors::{AppError, AppResult, AppErrorView, bytes_result_view};
use crate::infrastructure::crypto::aes_service::{AesCryptoService, decrypt_panics, opened_payload};
use crate::config::crypto::CryptoSettings;

verus! {

/// What opening a stored CV gives with the given settings and key: the plain
/// bytes, or "not found", or the first error of decoding or decryption.
pub open spec fn opened_cv(
    s: CryptoSettings,
    found: Option<EncryptedCV>,
    id: Seq<char>,
    key: Seq<char>,
) -> Result<Seq<u8>, AppErrorView> {
    match found {
        None => Err(AppErrorView::NotFound("CV "@ + id + " not found"@)),
        Some(enc) => match stored_payload(enc) {
            Err(e) => Err(e),
            Ok(p) => opened_payload(s, p, key),
        },
    }
}

/// A stored CV whose base64 parts stand for a payload that decrypts to `data`
/// under `key` (as every result of `AesCryptoService::encrypt` with that key
/// does) opens to `data`.
pub proof fn lemma_open_stored_payload(
    s: CryptoSettings,
    enc: EncryptedCV,
    id: Seq<char>,
    key: Seq<char>,
    payload: (Seq<u8>, Seq<u8>, Seq<u8>),
    data: Seq<u8>,
)
    requires
        stored_payload(enc) == Ok::<(Seq<u8>, Seq<u8>, Seq<u8>), AppErrorView>(payload),
        opened_payload(s, payload, key) == Ok::<Seq<u8>, AppErrorView>(data),
    ensures
        opened_cv(s, Some(enc), id, key) == Ok::<Seq<u8>, AppErrorView>(data),
{
}

/// Where opening what was found reaches argon2's check of costs whose
/// `p_cost * 8` overflows `u32`, which panics.
pub open spec fn open_panics(s: CryptoSettings, found: Option<EncryptedCV>) -> bool {
    found matches Some(enc) && stored_payload(enc) matches Ok(p) && decrypt_panics(s, p)
}

/// Opens what the repository found under `id` with `crypto`.
pub fn open_found(crypto: &AesCryptoService, found: Option<EncryptedCV>, id: &str, key: &str) -> (r:
    AppResult<Vec<u8>>)
    requires
        !open_panics(crypto.config(), found),
    ensures
        bytes_result_view(r) == opened_cv(crypto.config(), found, id@, key@),
{
    match found {
        None => {
            let mut m = String::from_str("CV ");
            m.append(id);
            m.append(" not found");
            Err(AppError::NotFound(m))
        },
        Some(enc) => {
            let payload = match EncryptedPayload::from_stored(&enc) {
                Ok(p) => p,
                Err(e) => return Err(e),
            };
            crypto.decrypt(&payload, key)
        },
    }
}

/// `open_found` where it does not panic; `None` exactly where it would reach
/// argon2's check with costs whose `p_cost * 8` overflows `u32`.
pub fn open_found_checked(
    crypto: &AesCryptoService,
    found: Option<EncryptedCV>,
    id: &str,
    key: &str,
) -> (r: Option<AppResult<Vec<u8>>>)
    ensures
        r is None <==> open_panics(crypto.config(), found),
        r matches Some(v) ==> bytes_result_view(v) == opened_cv(crypto.config(), found, id@, key@),
{
    if crypto.accepts_costs() {
        return Some(open_found(crypto, found, id, key));
    }
    match found {
        None => Some(open_found(crypto, None, id, key)),
        Some(enc) => match EncryptedPayload::from_stored(&enc) {
            Err(e) => Some(Err(e)),
            Ok(p) => {
                if p.salt.len() == crypto.salt_len() && p.nonce.len() == 12 {
                    None
                } else {
                    Some(crypto.decrypt(&p, key))
                }
            },
        },
    }
}

/// Unlocking of stored CVs: read from a repository, decrypted with the AES
/// service, decoded by a decoder.
pub struct VaultService<R, D> {
    repo: R,
    crypto: AesCryptoService,
    decoder: D,
}

impl<R, D> VaultService<R, D> {
    /// The repository.
    pub closed spec fn repository(&self) -> R {
        self.repo
    }

    /// The decryption settings.
    pub closed spec fn settings(&self) -> CryptoSettings {
        self.crypto.config()
    }

    /// The decoder.
    pub closed spec fn decoding(&self) -> D {
        self.decoder
    }

    /// A service over a repository, an AES service and a decoder.
    pub fn new(repo: R, crypto: AesCryptoService, decoder: D) -> (r: Self)
        ensures
            r.repository() == repo,
            r.settings() == crypto.config(),
            r.decoding() == decoder,
    {
        Self { repo, crypto, decoder }
    }

    /// The repository.
    pub fn repo(&self) -> (r: &R)
        ensures
            *r == self.repository(),
    {
        &self.repo
    }

    /// The decoder.
    pub fn decoder(&self) -> (r: &D)
        ensures
            *r == self.decoding(),
    {
        &self.decoder
    }

    /// Opens what the repository found under `id` into the plain bytes of the CV.
    pub fn open_found(&self, found: Option<EncryptedCV>, id: &str, key: &str) -> (r: AppResult<
        Vec<u8>,
    >)
        requires
            !open_panics(self.settings(), found),
        ensures
            bytes_result_view(r) == opened_cv(self.settings(), found, id@, key@),
    {
        open_found(&self.crypto, found, id, key)
    }

    /// `open_found` where it does not panic; `None` exactly where it would
    /// reach argon2's check with costs whose `p_cost * 8` overflows `u32`.
    pub fn open_found_checked(&self, found: Option<EncryptedCV>, id: &str, key: &str) -> (r: Option<
        AppResult<Vec<u8>>,
    >)
        ensures
            r is None <==> open_panics(self.settings(), found),
            r matches Some(v) ==> bytes_result_view(v) == opened_cv(self.settings(), found, id@, key@),
    {
        open_found_checked(&self.crypto, found, id, key)
    }
}

} // verus!
