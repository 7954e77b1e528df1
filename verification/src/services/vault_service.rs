use vstd::prelude::*;
use crate::domain::vault::EncryptedCV;
use crate::errors::{AppError, AppResult, AppErrorView, text_result_view};
use crate::utils::crypto::{CryptoUtils, decrypt_panics, opened_text};

verus! {

/// Unlocking of stored CVs whose parts are base64 texts, with `CryptoUtils`.
pub struct VaultService<R> {
    repo: R,
}

/// What unlocking gives for what the repository found under `id`: the
/// decrypted text, or "not found", or the error of decryption.
pub open spec fn unlocked_text(found: Option<EncryptedCV>, id: Seq<char>, key: Seq<char>) -> Result<
    Seq<char>,
    AppErrorView,
> {
    match found {
        None => Err(AppErrorView::NotFound("CV o ID "@ + id + " nie istnieje"@)),
        Some(enc) => opened_text(enc.data@, key, enc.salt@, enc.nonce@),
    }
}

/// A stored CV whose texts decrypt to `data` under `key` (as every result of
/// `CryptoUtils::encrypt` with that key does) unlocks to `data`, and
/// unlocking it does not stop at the nonce.
pub proof fn lemma_unlock_stored_encryption(enc: EncryptedCV, id: Seq<char>, key: Seq<char>, data: Seq<char>)
    requires
        opened_text(enc.data@, key, enc.salt@, enc.nonce@) == Ok::<Seq<char>, AppErrorView>(data),
    ensures
        unlocked_text(Some(enc), id, key) == Ok::<Seq<char>, AppErrorView>(data),
{
}

impl<R> VaultService<R> {
    /// The repository that the service reads.
    pub closed spec fn repository(&self) -> R {
        self.repo
    }

    /// A service over a repository of stored CVs.
    pub fn new(repo: R) -> (r: Self)
        ensures
            r.repository() == repo,
    {
        Self { repo }
    }

    /// The repository.
    pub fn repo(&self) -> (r: &R)
        ensures
            *r == self.repository(),
    {
        &self.repo
    }

    /// Decrypts a stored CV with the access key into its JSON text.
    pub fn decrypt_logic(&self, enc: &EncryptedCV, key: &str) -> (r: AppResult<String>)
        requires
            !decrypt_panics(enc.data@, key@, enc.salt@, enc.nonce@),
        ensures
            text_result_view(r) == opened_text(enc.data@, key@, enc.salt@, enc.nonce@),
    {
        CryptoUtils::decrypt(enc.data.as_str(), key, enc.salt.as_str(), enc.nonce.as_str())
    }

    /// Unlocks what the repository found under `id`: "not found" where it
    /// found nothing, else the decrypted JSON text. `None` exactly where the
    /// stored nonce would make decryption panic.
    pub fn unlock_found(&self, found: Option<EncryptedCV>, id: &str, key: &str) -> (r: Option<
        AppResult<String>,
    >)
        ensures
            r is None <==> (found matches Some(enc) && decrypt_panics(
                enc.data@,
                key@,
                enc.salt@,
                enc.nonce@,
            )),
            r matches Some(v) ==> text_result_view(v) == unlocked_text(found, id@, key@),
    {
        match found {
            None => {
                let mut m = String::from_str("CV o ID ");
                m.append(id);
                m.append(" nie istnieje");
                Some(Err(AppError::NotFound(m)))
            },
            Some(enc) => {
                if CryptoUtils::decrypt_would_panic(
                    enc.data.as_str(),
                    key,
                    enc.salt.as_str(),
                    enc.nonce.as_str(),
                ) {
                    None
                } else {
                    Some(self.decrypt_logic(&enc, key))
                }
            },
        }
    }
}

} // verus!
