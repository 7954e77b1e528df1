use vstd::prelude::*;
use crate::domain::vault::EncryptedCV;
use crate::errors::{AppError, AppResult, AppErrorView};
use crate::trusted::encoding::{base64_decode, base64_decoded};

verus! {

/// An encrypted document in raw bytes: the ciphertext (with its tag), the salt
/// from which the key was derived, and the nonce.
pub struct EncryptedPayload {
    pub ciphertext: Vec<u8>,
    pub salt: Vec<u8>,
    pub nonce: Vec<u8>,
}

impl View for EncryptedPayload {
    type V = (Seq<u8>, Seq<u8>, Seq<u8>);

    open spec fn view(&self) -> (Seq<u8>, Seq<u8>, Seq<u8>) {
        (self.ciphertext@, self.salt@, self.nonce@)
    }
}

/// The raw payload of a stored CV, whose parts are kept as base64; or the
/// first part that is not valid base64.
pub open spec fn stored_payload(cv: EncryptedCV) -> Result<(Seq<u8>, Seq<u8>, Seq<u8>), AppErrorView> {
    match base64_decoded(cv.data@) {
        None => Err(AppErrorView::ValidationError("Invalid ciphertext base64"@)),
        Some(c) => match base64_decoded(cv.salt@) {
            None => Err(AppErrorView::ValidationError("Invalid salt base64"@)),
            Some(s) => match base64_decoded(cv.nonce@) {
                None => Err(AppErrorView::ValidationError("Invalid nonce base64"@)),
                Some(n) => Ok((c, s, n)),
            },
        },
    }
}

impl EncryptedPayload {
    /// Decodes the base64 parts of a stored CV into a payload.
    pub fn from_stored(cv: &EncryptedCV) -> (r: AppResult<EncryptedPayload>)
        ensures
            match r {
                Ok(p) => stored_payload(*cv) == Ok::<(Seq<u8>, Seq<u8>, Seq<u8>), AppErrorView>(p@),
                Err(e) => stored_payload(*cv) == Err::<(Seq<u8>, Seq<u8>, Seq<u8>), AppErrorView>(
                    e@,
                ),
            },
    {
        let ciphertext = match base64_decode(cv.data.as_str()) {
            Some(c) => c,
            None => {
                return Err(AppError::ValidationError(String::from_str("Invalid ciphertext base64")))
            },
        };
        let salt = match base64_decode(cv.salt.as_str()) {
            Some(s) => s,
            None => return Err(AppError::ValidationError(String::from_str("Invalid salt base64"))),
        };
        let nonce = match base64_decode(cv.nonce.as_str()) {
            Some(n) => n,
            None => return Err(AppError::ValidationError(String::from_str("Invalid nonce base64"))),
        };
        Ok(EncryptedPayload { ciphertext, salt, nonce })
    }
}

} // verus!
