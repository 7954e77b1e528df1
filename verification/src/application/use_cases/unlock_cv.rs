use vstd::prelude::*;
use crate::config::crypto::CryptoSettings;
use crate::domain::vault::EncryptedCV;
use crate::errors::{AppResult, bytes_result_view};
use crate::infrastructure::crypto::aes_service::AesCryptoService;
use crate::services::vault::vault_service::{open_found, open_found_checked, opened_cv, open_panics};

verus! {

/// The use case of unlocking a CV: read it from a repository, decrypt it with
/// the AES service, decode it with a decoder.
pub struct UnlockCvUseCase<R, D> {
    repo: R,
    crypto: AesCryptoService,
    decoder: D,
}

impl<R, D> UnlockCvUseCase<R, D> {
    /// The repository.
    pub closed spec fn repository(&self) -> R {
        self.repo
    }

    /// The decryption settings.
    pub closed spec fn settings(&self) -> CryptoSettings {
        self.crypto.config()
    }

    /// The decoder.
    pub closed spec fn decoding(&self) -> D {
        self.decoder
    }

    /// A use case over a repository, an AES service and a decoder.
    pub fn new(repo: R, crypto: AesCryptoService, decoder: D) -> (r: Self)
        ensures
            r.repository() == repo,
            r.settings() == crypto.config(),
            r.decoding() == decoder,
    {
        Self { repo, crypto, decoder }
    }

    /// The repository.
    pub fn repo(&self) -> (r: &R)
        ensures
            *r == self.repository(),
    {
        &self.repo
    }

    /// The decoder.
    pub fn decoder(&self) -> (r: &D)
        ensures
            *r == self.decoding(),
    {
        &self.decoder
    }

    /// Opens what the repository found under `id` into the plain bytes of the CV.
    pub fn open_found(&self, found: Option<EncryptedCV>, id: &str, key: &str) -> (r: AppResult<
        Vec<u8>,
    >)
        requires
            !open_panics(self.settings(), found),
        ensures
            bytes_result_view(r) == opened_cv(self.settings(), found, id@, key@),
    {
        open_found(&self.crypto, found, id, key)
    }

    /// `open_found` where it does not panic; `None` exactly where it would
    /// reach argon2's check with costs whose `p_cost * 8` overflows `u32`.
    pub fn open_found_checked(&self, found: Option<EncryptedCV>, id: &str, key: &str) -> (r: Option<
        AppResult<Vec<u8>>,
    >)
        ensures
            r is None <==> open_panics(self.settings(), found),
            r matches Some(v) ==> bytes_result_view(v) == opened_cv(self.settings(), found, id@, key@),
    {
        open_found_checked(&self.crypto, found, id, key)
    }
}

} // verus!
