use vstd::prelude::*;
use crate::backend::{aes128_cbc_decrypt_raw, aes128_cbc_raw};

verus! {

/// Block size of AES, in bytes.
pub const BLOCK_LEN: usize = 16;

/// Why a decryption failed.
#[derive(Debug, Clone, Copy, PartialEq, Eq, Structural)]
pub enum CryptoError {
    /// The ciphertext is empty, not a whole number of blocks, or too long for
    /// the cipher backend.
    InvalidLength,
    /// The decrypted data does not end in valid PKCS#7 padding.
    InvalidPadding,
    /// The cipher backend reported an error.
    Cipher,
}

/// `b` ends in valid PKCS#7 padding for a 16-byte block: its last byte `p`
/// lies in `1..=16`, and the last `p` bytes all equal `p`.
pub open spec fn has_pkcs7_padding(b: Seq<u8>) -> bool {
    &&& b.len() > 0
    &&& 1 <= b.last() <= 16
    &&& b.last() <= b.len()
    &&& forall|i: int| b.len() - b.last() <= i < b.len() ==> #[trigger] b[i] == b.last()
}

/// The result of stripping PKCS#7 padding from `b`.
pub open spec fn pkcs7_unpad(b: Seq<u8>) -> Result<Seq<u8>, CryptoError> {
    if has_pkcs7_padding(b) {
        Ok(b.subrange(0, b.len() - b.last()))
    } else {
        Err(CryptoError::InvalidPadding)
    }
}

/// Strips PKCS#7 padding, rejecting any buffer whose padding is malformed.
pub fn unpad_pkcs7(buf: &[u8]) -> (r: Result<Vec<u8>, CryptoError>)
    ensures
        match r {
            Ok(v) => pkcs7_unpad(buf@) == Ok::<Seq<u8>, CryptoError>(v@),
            Err(e) => pkcs7_unpad(buf@) == Err::<Seq<u8>, CryptoError>(e),
        },
{
    let n = buf.len();
    if n == 0 {
        return Err(CryptoError::InvalidPadding);
    }
    let p = buf[n - 1];
    if p < 1 || p > 16 || (p as usize) > n {
        return Err(CryptoError::InvalidPadding);
    }
    let start = n - p as usize;
    let mut i = start;
    while i < n
        invariant
            n == buf@.len(),
            p == buf@.last(),
            start == n - p,
            start <= i <= n,
            forall|j: int| start <= j < i ==> buf@[j] == p,
        decreases n - i,
    {
        if buf[i] != p {
            return Err(CryptoError::InvalidPadding);
        }
        i = i + 1;
    }
    let mut out: Vec<u8> = Vec::with_capacity(start);
    let mut k: usize = 0;
    while k < start
        invariant
            start <= n == buf@.len(),
            k <= start,
            out@ == buf@.subrange(0, k as int),
        decreases start - k,
    {
        out.push(buf[k]);
        k = k + 1;
        assert(out@ =~= buf@.subrange(0, k as int));
    }
    Ok(out)
}

/// Longest ciphertext the cipher backend accepts in one call.
pub const MAX_CIPHERTEXT_LEN: usize = 0x7fff_ffff;

/// `len` is an acceptable ciphertext length: a positive whole number of
/// blocks that the backend can take.
pub open spec fn valid_ciphertext_len(len: nat) -> bool {
    0 < len <= MAX_CIPHERTEXT_LEN && len % (BLOCK_LEN as nat) == 0
}

/// AES-128-CBC decryption followed by strict PKCS#7 unpadding.
pub open spec fn aes_cbc_decrypt_spec(key: Seq<u8>, iv: Seq<u8>, ciphertext: Seq<u8>) -> Result<
    Seq<u8>,
    CryptoError,
> {
    if !valid_ciphertext_len(ciphertext.len()) {
        Err(CryptoError::InvalidLength)
    } else {
        pkcs7_unpad(aes128_cbc_raw(key, iv, ciphertext))
    }
}

/// `r` is what `decrypt_aes` may return: the result of the specification, or,
/// for a ciphertext of acceptable length, a failure of the cipher backend.
pub open spec fn decrypt_outcome(
    r: Result<Seq<u8>, CryptoError>,
    key: Seq<u8>,
    iv: Seq<u8>,
    ciphertext: Seq<u8>,
) -> bool {
    ||| r == aes_cbc_decrypt_spec(key, iv, ciphertext)
    ||| (r == Err::<Seq<u8>, CryptoError>(CryptoError::Cipher) && valid_ciphertext_len(
        ciphertext.len(),
    ))
}

/// The view of a decryption result, with the plaintext as a sequence.
pub open spec fn result_view(r: Result<Vec<u8>, CryptoError>) -> Result<Seq<u8>, CryptoError> {
    match r {
        Ok(v) => Ok(v@),
        Err(e) => Err(e),
    }
}

/// Decrypts `data` with AES-128-CBC under `key` and `iv`, then strips and
/// checks its PKCS#7 padding.
pub fn decrypt_aes(key: &[u8], iv: &[u8], data: &[u8]) -> (r: Result<Vec<u8>, CryptoError>)
    requires
        key@.len() == 16,
        iv@.len() == 16,
    ensures
        decrypt_outcome(result_view(r), key@, iv@, data@),
        !valid_ciphertext_len(data@.len()) ==> r == Err::<Vec<u8>, CryptoError>(
            CryptoError::InvalidLength,
        ),
{
    let n = data.len();
    if n == 0 || n > MAX_CIPHERTEXT_LEN || n % BLOCK_LEN != 0 {
        return Err(CryptoError::InvalidLength);
    }
    match aes128_cbc_decrypt_raw(key, iv, data) {
        Ok(raw) => unpad_pkcs7(raw.as_slice()),
        Err(_) => Err(CryptoError::Cipher),
    }
}

/// Compares two byte strings.
pub fn bytes_equal(a: &[u8], b: &[u8]) -> (r: bool)
    ensures
        r == (a@ == b@),
{
    if a.len() != b.len() {
        return false;
    }
    let mut i: usize = 0;
    while i < a.len()
        invariant
            a@.len() == b@.len(),
            i <= a@.len(),
            forall|j: int| 0 <= j < i ==> a@[j] == b@[j],
        decreases a@.len() - i,
    {
        if a[i] != b[i] {
            return false;
        }
        i = i + 1;
    }
    assert(a@ =~= b@);
    true
}

/// Padding is rejected whenever the last byte is zero or above 16, or one of
/// the last `p` bytes differs from the last byte `p`.
pub proof fn lemma_bad_padding_rejected(b: Seq<u8>)
    requires
        b.len() > 0,
        b.last() == 0 || b.last() > 16 || (b.last() <= b.len() && exists|i: int|
            b.len() - b.last() <= i < b.len() && #[trigger] b[i] != b.last()),
    ensures
        pkcs7_unpad(b) == Err::<Seq<u8>, CryptoError>(CryptoError::InvalidPadding),
{
}

/// What unpadding accepts is exactly its output followed by `p` copies of
/// `p`, for some `p` in `1..=16`.
pub proof fn lemma_unpad_strips_exact_padding(b: Seq<u8>, out: Seq<u8>)
    requires
        pkcs7_unpad(b) == Ok::<Seq<u8>, CryptoError>(out),
    ensures
        1 <= b.len() - out.len() <= 16,
        b == out + Seq::new(
            (b.len() - out.len()) as nat,
            |i: int| (b.len() - out.len()) as u8,
        ),
{
    assert(b =~= out + Seq::new((b.len() - out.len()) as nat, |i: int| (b.len() - out.len()) as u8));
}

} // verus!
