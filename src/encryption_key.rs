use vstd::prelude::*;
use vstd::slice::slice_subrange;
use crypto::mac::Mac;
use crate::backend::{md5_digest, md5_of, pbkdf2_hmac_sha1};
use crate::cryptlib::{
    aes_cbc_decrypt_spec, bytes_equal, decrypt_aes, decrypt_outcome, CryptoError,
};
use crate::error::{DecryptError, ParseError};
use crate::salted::{salted_decode_spec, SaltedString};

verus! {

/// Length of the key material that PBKDF2 derives for a level: an AES key
/// followed by an IV.
pub const KEK_MATERIAL_LEN: usize = 32;

/// The legacy OpenSSL `enc` key: `MD5(secret || salt)`.
pub open spec fn md5_key(secret: Seq<u8>, salt: Seq<u8>) -> Seq<u8> {
    md5_of(secret + salt)
}

/// The legacy OpenSSL `enc` IV: `MD5(key || secret || salt)`.
pub open spec fn md5_iv(secret: Seq<u8>, salt: Seq<u8>) -> Seq<u8> {
    md5_of(md5_key(secret, salt) + (secret + salt))
}

/// Decrypts `blob` with the key and IV that the legacy derivation makes of
/// `secret` and the blob's salt.
pub open spec fn md5_decrypt_spec(secret: Seq<u8>, blob: (Seq<u8>, Seq<u8>)) -> Result<
    Seq<u8>,
    CryptoError,
> {
    aes_cbc_decrypt_spec(md5_key(secret, blob.0), md5_iv(secret, blob.0), blob.1)
}

/// `r` is what decrypting `blob` under the legacy derivation from `secret`
/// may give (see `decrypt_outcome`).
pub open spec fn md5_decrypt_outcome(
    r: Result<Seq<u8>, CryptoError>,
    secret: Seq<u8>,
    blob: (Seq<u8>, Seq<u8>),
) -> bool {
    decrypt_outcome(r, md5_key(secret, blob.0), md5_iv(secret, blob.0), blob.1)
}

/// An AES key and IV pair.
pub struct KeyIV {
    pub key: Vec<u8>,
    pub iv: Vec<u8>,
}

/// `a` followed by `b`.
fn concat(a: &[u8], b: &[u8]) -> (r: Vec<u8>)
    ensures
        r@ == a@ + b@,
{
    let mut r: Vec<u8> = Vec::new();
    let mut i: usize = 0;
    while i < a.len()
        invariant
            i <= a@.len(),
            r@ == a@.subrange(0, i as int),
        decreases a@.len() - i,
    {
        r.push(a[i]);
        i = i + 1;
        assert(r@ =~= a@.subrange(0, i as int));
    }
    let mut j: usize = 0;
    while j < b.len()
        invariant
            j <= b@.len(),
            r@ == a@ + b@.subrange(0, j as int),
        decreases b@.len() - j,
    {
        r.push(b[j]);
        j = j + 1;
        assert(r@ =~= a@ + b@.subrange(0, j as int));
    }
    assert(b@.subrange(0, b@.len() as int) =~= b@);
    r
}

/// One security level of a keychain: a master key wrapped under the user's
/// password, and a validation blob that confirms a recovered master key. The
/// master key, once recovered, is set once and never replaced.
pub struct EncryptionKey {
    iterations: u32,
    level: String,
    identifier: String,
    validation: SaltedString,
    data: SaltedString,
    decrypted_key: Option<Vec<u8>>,
}

/// The abstract state of a level.
pub struct LevelView {
    pub iterations: u32,
    pub level: Seq<char>,
    pub identifier: Seq<char>,
    /// Salt and ciphertext of the validation blob.
    pub validation: (Seq<u8>, Seq<u8>),
    /// Salt and ciphertext of the wrapped master key.
    pub data: (Seq<u8>, Seq<u8>),
    /// The master key, once the level has been unlocked.
    pub unlocked_key: Option<Seq<u8>>,
}

impl LevelView {
    /// `self` and `other` hold the same stored record.
    pub open spec fn same_record(self, other: LevelView) -> bool {
        &&& self.iterations == other.iterations
        &&& self.level == other.level
        &&& self.identifier == other.identifier
        &&& self.validation == other.validation
        &&& self.data == other.data
    }

    /// The master key that `password` recovers from this level, if the
    /// validation blob confirms it: PBKDF2 turns the password and the data
    /// salt into an AES key and IV, which decrypt the data blob into a
    /// candidate; the legacy MD5 derivation turns the candidate and the
    /// validation salt into a second key and IV, which must decrypt the
    /// validation blob into the candidate itself.
    pub open spec fn unlock_candidate(self, password: Seq<u8>) -> Option<Seq<u8>> {
        if self.iterations == 0 {
            None
        } else {
            let kek = pbkdf2_hmac_sha1(
                password,
                self.data.0,
                self.iterations,
                KEK_MATERIAL_LEN as nat,
            );
            match aes_cbc_decrypt_spec(kek.subrange(0, 16), kek.subrange(16, 32), self.data.1) {
                Err(_) => None,
                Ok(candidate) => match md5_decrypt_spec(candidate, self.validation) {
                    Ok(check) => if check == candidate {
                        Some(candidate)
                    } else {
                        None
                    },
                    Err(_) => None,
                },
            }
        }
    }

    /// What an unlock attempt with `password` accepts: the recovered master
    /// key, provided it agrees with the key already held, if any.
    pub open spec fn accepted_key(self, password: Seq<u8>) -> Option<Seq<u8>> {
        match self.unlock_candidate(password) {
            Some(c) => if self.unlocked_key is None || self.unlocked_key == Some(c) {
                Some(c)
            } else {
                None
            },
            None => None,
        }
    }
}

impl View for EncryptionKey {
    type V = LevelView;

    closed spec fn view(&self) -> LevelView {
        LevelView {
            iterations: self.iterations,
            level: self.level@,
            identifier: self.identifier@,
            validation: self.validation.parts(),
            data: self.data.parts(),
            unlocked_key: match self.decrypted_key {
                Some(k) => Some(k@),
                None => None,
            },
        }
    }
}

/// The levels of a keychain, in the order in which they were stored.
pub struct EncryptionKeyList {
    pub list: Vec<EncryptionKey>,
}

impl EncryptionKey {
    /// Builds a locked level from the fields of its stored record, decoding
    /// the validation blob and then the data blob.
    pub fn from_record(
        iterations: u32,
        level: String,
        identifier: String,
        validation: &str,
        data: &str,
    ) -> (r: Result<EncryptionKey, ParseError>)
        ensures
            match r {
                Ok(k) => {
                    &&& k@.iterations == iterations
                    &&& k@.level == level@
                    &&& k@.identifier == identifier@
                    &&& salted_decode_spec(validation@) == Ok::<(Seq<u8>, Seq<u8>), ParseError>(
                        k@.validation,
                    )
                    &&& salted_decode_spec(data@) == Ok::<(Seq<u8>, Seq<u8>), ParseError>(
                        k@.data,
                    )
                    &&& k@.unlocked_key is None
                },
                Err(e) => salted_decode_spec(validation@) == Err::<(Seq<u8>, Seq<u8>), ParseError>(
                    e,
                ) || (salted_decode_spec(validation@) is Ok && salted_decode_spec(data@) == Err::<
                    (Seq<u8>, Seq<u8>),
                    ParseError,
                >(e)),
            },
    {
        let validation = match SaltedString::decode(validation) {
            Ok(v) => v,
            Err(e) => return Err(e),
        };
        let data = match SaltedString::decode(data) {
            Ok(d) => d,
            Err(e) => return Err(e),
        };
        Ok(EncryptionKey { iterations, level, identifier, validation, data, decrypted_key: None })
    }

    /// The legacy OpenSSL `enc` derivation: `key = MD5(password || salt)`,
    /// `iv = MD5(key || password || salt)`.
    pub fn derive_md5(&self, password: &[u8], salt: &[u8]) -> (r: KeyIV)
        ensures
            r.key@ == md5_key(password@, salt@),
            r.iv@ == md5_iv(password@, salt@),
            r.key@.len() == 16,
            r.iv@.len() == 16,
    {
        let input = concat(password, salt);
        let key = md5_digest(input.as_slice());
        let chained = concat(key.as_slice(), input.as_slice());
        let iv = md5_digest(chained.as_slice());
        KeyIV { key, iv }
    }

    /// Relies on rust-crypto's `pbkdf2` with `Hmac<Sha1>` keyed by `key`: fills
    /// `output` with the derived bytes. `pbkdf2` asserts a positive iteration
    /// count and panics past `u32::MAX` blocks of 20 bytes, hence the
    /// `requires`.
    #[verifier::external_body]
    pub fn derive_pbkdf2(&self, key: &[u8], salt: &[u8], output: &mut [u8])
        requires
            self@.iterations > 0,
            old(output)@.len() <= 20 * (u32::MAX as int),
        ensures
            final(output)@ == pbkdf2_hmac_sha1(key@, salt@, self@.iterations, old(output)@.len()),
            final(output)@.len() == old(output)@.len(),
    {
        let mut mac = crypto::hmac::Hmac::new(crypto::sha1::Sha1::new(), key);
        crypto::pbkdf2::pbkdf2(&mut mac, salt, self.iterations, output);
    }

    /// Recovers the master key with `password` without changing the level.
    /// Gives `None` where the password is wrong, the blobs do not decrypt, or
    /// the recovered key differs from the one already held.
    pub fn try_unlock(&self, password: &[u8]) -> (r: Option<Vec<u8>>)
        ensures
            r matches Some(c) ==> self@.accepted_key(password@) == Some(c@),
            self@.accepted_key(password@) is None ==> r is None,
    {
        if self.iterations == 0 {
            return None;
        }
        let mut buffer: Vec<u8> = vec![0u8; KEK_MATERIAL_LEN];
        self.derive_pbkdf2(password, self.data.salt.as_slice(), buffer.as_mut_slice());
        let kek_key = slice_subrange(buffer.as_slice(), 0, 16);
        let kek_iv = slice_subrange(buffer.as_slice(), 16, 32);
        let candidate = match decrypt_aes(kek_key, kek_iv, self.data.data.as_slice()) {
            Ok(c) => c,
            Err(_) => return None,
        };
        let key_iv = self.derive_md5(candidate.as_slice(), self.validation.salt.as_slice());
        let check = match decrypt_aes(
            key_iv.key.as_slice(),
            key_iv.iv.as_slice(),
            self.validation.data.as_slice(),
        ) {
            Ok(v) => v,
            Err(_) => return None,
        };
        self.confirm_candidate(candidate, check.as_slice())
    }

    /// The last step of an unlock attempt: `candidate` is accepted as the
    /// master key when the decrypted validation blob `check` equals it and it
    /// agrees with the key already held, if any.
    pub fn confirm_candidate(&self, candidate: Vec<u8>, check: &[u8]) -> (r: Option<Vec<u8>>)
        ensures
            r is Some <==> (check@ == candidate@ && (self@.unlocked_key is None
                || self@.unlocked_key == Some(candidate@))),
            r matches Some(c) ==> c@ == candidate@,
    {
        if !bytes_equal(check, candidate.as_slice()) {
            return None;
        }
        match &self.decrypted_key {
            Some(k) => {
                if !bytes_equal(k.as_slice(), candidate.as_slice()) {
                    return None;
                }
            },
            None => {},
        }
        Some(candidate)
    }

    /// Unlocks the level with `password`. On success the recovered master key
    /// is kept; a level already unlocked keeps its key and succeeds only if
    /// `password` recovers that same key. On failure nothing changes.
    pub fn unlock(&mut self, password: &[u8]) -> (r: bool)
        ensures
            final(self)@.same_record(old(self)@),
            r ==> old(self)@.accepted_key(password@) is Some && final(self)@.unlocked_key == old(
                self,
            )@.accepted_key(password@),
            !r ==> final(self)@ == old(self)@,
            old(self)@.accepted_key(password@) is None ==> !r,
            old(self)@.unlocked_key is Some ==> final(self)@.unlocked_key == old(self)@.unlocked_key,
    {
        match self.try_unlock(password) {
            Some(candidate) => {
                if self.decrypted_key.is_none() {
                    self.decrypted_key = Some(candidate);
                }
                true
            },
            None => false,
        }
    }

    /// Decrypts a blob that was encrypted under this level's master key with
    /// the legacy MD5 key derivation.
    pub fn decrypt(&self, data: &SaltedString) -> (r: Result<Vec<u8>, DecryptError>)
        ensures
            match self@.unlocked_key {
                None => r == Err::<Vec<u8>, DecryptError>(DecryptError::LevelNotUnlocked),
                Some(k) => match r {
                    Ok(p) => md5_decrypt_outcome(Ok(p@), k, data.parts()),
                    Err(DecryptError::Crypto(e)) => md5_decrypt_outcome(Err(e), k, data.parts()),
                    Err(DecryptError::LevelNotUnlocked) => false,
                },
            },
    {
        match &self.decrypted_key {
            None => Err(DecryptError::LevelNotUnlocked),
            Some(key) => {
                let key_iv = self.derive_md5(key.as_slice(), data.salt.as_slice());
                match decrypt_aes(key_iv.key.as_slice(), key_iv.iv.as_slice(), data.data.as_slice()) {
                    Ok(p) => Ok(p),
                    Err(e) => Err(DecryptError::Crypto(e)),
                }
            },
        }
    }

    /// The PBKDF2 iteration count.
    pub fn iterations(&self) -> (r: u32)
        ensures
            r == self@.iterations,
    {
        self.iterations
    }

    /// The level's name, such as `SL5`.
    pub fn level(&self) -> (r: &str)
        ensures
            r@ == self@.level,
    {
        self.level.as_str()
    }

    /// The identifier that items use to refer to this level.
    pub fn identifier(&self) -> (r: &str)
        ensures
            r@ == self@.identifier,
    {
        self.identifier.as_str()
    }

    /// The validation blob.
    pub fn validation(&self) -> (r: &SaltedString)
        ensures
            r.parts() == self@.validation,
    {
        &self.validation
    }

    /// The blob that holds the wrapped master key.
    pub fn data(&self) -> (r: &SaltedString)
        ensures
            r.parts() == self@.data,
    {
        &self.data
    }

    /// The master key, once the level has been unlocked.
    pub fn unlocked_key(&self) -> (r: Option<&[u8]>)
        ensures
            match r {
                Some(k) => self@.unlocked_key == Some(k@),
                None => self@.unlocked_key is None,
            },
    {
        match &self.decrypted_key {
            Some(k) => Some(k.as_slice()),
            None => None,
        }
    }

    /// Stores a master key that an unlock attempt accepted.
    pub(crate) fn set_unlocked(&mut self, key: Vec<u8>)
        requires
            old(self)@.unlocked_key is None || old(self)@.unlocked_key == Some(key@),
        ensures
            final(self)@.same_record(old(self)@),
            final(self)@.unlocked_key == Some(key@),
    {
        if self.decrypted_key.is_none() {
            self.decrypted_key = Some(key);
        }
    }
}

/// Key derivation is deterministic: two levels that hold the same record
/// derive the same key material, and recover the same master key, from the
/// same password, whatever state either is in.
pub proof fn lemma_derivation_deterministic(a: LevelView, b: LevelView, password: Seq<u8>)
    requires
        a.same_record(b),
    ensures
        pbkdf2_hmac_sha1(password, a.data.0, a.iterations, KEK_MATERIAL_LEN as nat)
            == pbkdf2_hmac_sha1(password, b.data.0, b.iterations, KEK_MATERIAL_LEN as nat),
        a.unlock_candidate(password) == b.unlock_candidate(password),
{
}

/// PBKDF2 is deterministic: two calls of `derive_pbkdf2` with the same key,
/// salt and iteration count fill outputs of the same length with the same
/// bytes, whatever the outputs held before.
pub proof fn lemma_pbkdf2_deterministic(
    key: Seq<u8>,
    salt: Seq<u8>,
    iterations: u32,
    first: Seq<u8>,
    second: Seq<u8>,
    len: nat,
)
    requires
        iterations >= 1,
        len <= 20 * (u32::MAX as int),
        first == pbkdf2_hmac_sha1(key, salt, iterations, len),
        second == pbkdf2_hmac_sha1(key, salt, iterations, len),
    ensures
        first == second,
{
}

} // verus!
