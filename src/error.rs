use vstd::prelude::*;
use crate::cryptlib::CryptoError;

verus! {

/// Why a record of the keychain could not be read.
#[derive(Debug, Clone, Copy, PartialEq, Eq, Structural)]
pub enum ParseError {
    /// A blob is not valid base64.
    Base64,
    /// A blob carries the `Salted__` marker but fewer than eight salt bytes.
    TruncatedSalt,
    /// A record has the wrong number of fields, a field of the wrong type, or
    /// a key reference that is not 32 ASCII characters.
    Schema,
}

/// Why an item could not be decrypted.
#[derive(Debug, Clone, Copy, PartialEq, Eq, Structural)]
pub enum DecryptError {
    /// No unlocked level holds the key that the item refers to.
    LevelNotUnlocked,
    /// The item's ciphertext did not decrypt.
    Crypto(CryptoError),
}

} // verus!
