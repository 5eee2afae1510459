//! Reading and unlocking Agile Keychain exports: parsing of OpenSSL-style
//! salted blobs, key derivation, AES-128-CBC decryption with strict PKCS#7
//! padding checks, and the per-level unlock protocol.

pub mod backend;
pub mod cryptlib;
pub mod error;
pub mod salted;
pub mod encryption_key;
pub mod items;
pub mod keychain;

pub use cryptlib::{decrypt_aes, unpad_pkcs7, CryptoError};
pub use encryption_key::{EncryptionKey, EncryptionKeyList, KeyIV};
pub use error::{DecryptError, ParseError};
pub use items::{ContentItem, RecordField};
pub use keychain::Keychain;
pub use salted::SaltedString;
