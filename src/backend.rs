//! The cryptographic primitives and the base64 decoder that the library
//! takes from outside crates, each behind a small trusted item.

use vstd::prelude::*;
use crypto::digest::Digest;
use rustc_serialize::base64::FromBase64;

verus! {

/// The bytes that AES-128 in CBC mode, without any padding removal, decrypts
/// `ciphertext` to under `key` and `iv`.
pub uninterp spec fn aes128_cbc_raw(key: Seq<u8>, iv: Seq<u8>, ciphertext: Seq<u8>) -> Seq<u8>;

/// PBKDF2 with HMAC-SHA1 as its pseudorandom function: `len` bytes derived
/// from `password` and `salt` in `rounds` iterations.
pub uninterp spec fn pbkdf2_hmac_sha1(password: Seq<u8>, salt: Seq<u8>, rounds: u32, len: nat) -> Seq<u8>;

/// The MD5 digest of `data`.
pub uninterp spec fn md5_of(data: Seq<u8>) -> Seq<u8>;

/// What rustc-serialize's base64 decoder makes of `text` (either alphabet,
/// line breaks skipped, padding optional); `None` where it rejects the text.
pub uninterp spec fn base64_decoded(text: Seq<char>) -> Option<Seq<u8>>;

/// The error stack that OpenSSL reports a failed operation with.
#[verifier::external_type_specification]
#[verifier::external_body]
pub struct ExErrorStack(openssl::error::ErrorStack);

/// The error that base64 decoding reports.
#[verifier::external_type_specification]
#[verifier::external_body]
pub struct ExFromBase64Error(rustc_serialize::base64::FromBase64Error);

/// Relies on openssl's `CipherCtx` (`decrypt_init` with AES-128-CBC,
/// `set_padding(false)`, `cipher_update_vec`, `cipher_final_vec`): on success
/// the output is the raw CBC decryption of `ciphertext`. `decrypt_init`
/// panics on a key or IV shorter than 16 bytes and `cipher_update` on an
/// input longer than `i32::MAX` bytes, hence the `requires`.
#[verifier::external_body]
pub(crate) fn aes128_cbc_decrypt_raw(key: &[u8], iv: &[u8], ciphertext: &[u8]) -> (r: Result<
    Vec<u8>,
    openssl::error::ErrorStack,
>)
    requires
        key@.len() == 16,
        iv@.len() == 16,
        ciphertext@.len() <= i32::MAX,
    ensures
        r matches Ok(v) ==> v@ == aes128_cbc_raw(key@, iv@, ciphertext@),
{
    let mut ctx = openssl::cipher_ctx::CipherCtx::new()?;
    ctx.decrypt_init(Some(openssl::cipher::Cipher::aes_128_cbc()), Some(key), Some(iv))?;
    ctx.set_padding(false);
    let mut out = Vec::new();
    ctx.cipher_update_vec(ciphertext, &mut out)?;
    ctx.cipher_final_vec(&mut out)?;
    Ok(out)
}

/// Relies on rust-crypto's `Md5` (`input`, then `result` into a 16-byte
/// buffer): the digest of `data`, 16 bytes long.
#[verifier::external_body]
pub(crate) fn md5_digest(data: &[u8]) -> (r: Vec<u8>)
    ensures
        r@ == md5_of(data@),
        r@.len() == 16,
{
    let mut hash = crypto::md5::Md5::new();
    hash.input(data);
    let mut out = vec![0u8; 16];
    hash.result(&mut out);
    out
}

/// Relies on rustc-serialize's `FromBase64::from_base64` for `str`: the
/// decoded bytes, or an error where `text` is not valid base64.
#[verifier::external_body]
pub(crate) fn from_base64(text: &str) -> (r: Result<Vec<u8>, rustc_serialize::base64::FromBase64Error>)
    ensures
        match r {
            Ok(v) => base64_decoded(text@) == Some(v@),
            Err(_) => base64_decoded(text@) == None::<Seq<u8>>,
        },
{
    text.from_base64()
}

} // verus!
