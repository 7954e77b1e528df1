use vstd::prelude::*;

verus! {

/// A CV as it is stored: its id and the base64 texts of its ciphertext, salt and nonce.
pub struct EncryptedCV {
    pub id: String,
    pub data: String,
    pub salt: String,
    pub nonce: String,
}

/// A CV after decryption.
pub struct DecryptedCV {
    pub name: String,
    pub experience: Vec<String>,
    pub contact: String,
}

} // verus!
