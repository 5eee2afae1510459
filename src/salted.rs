use vstd::prelude::*;
use vstd::slice::{slice_subrange, slice_to_vec};
use vstd::string::StrSliceExecFns;
use crate::backend::{base64_decoded, from_base64};
use crate::error::ParseError;

verus! {

/// Length of the salt that follows the marker.
pub const SALT_LEN: usize = 8;

/// The eight bytes of `"Salted__"` that open a salted payload.
pub const SALTED_MARKER: [u8; 8] = [0x53, 0x61, 0x6c, 0x74, 0x65, 0x64, 0x5f, 0x5f];

/// The marker as a sequence.
pub open spec fn salted_marker() -> Seq<u8> {
    seq![0x53u8, 0x61u8, 0x6cu8, 0x74u8, 0x65u8, 0x64u8, 0x5fu8, 0x5fu8]
}

/// The salt that a payload without the marker gets: eight zero bytes.
pub open spec fn zero_salt() -> Seq<u8> {
    Seq::new(SALT_LEN as nat, |i: int| 0u8)
}

/// `payload` opens with the marker.
pub open spec fn has_salted_marker(payload: Seq<u8>) -> bool {
    payload.len() >= 8 && payload.subrange(0, 8) == salted_marker()
}

/// How a decoded payload splits into salt and ciphertext.
pub open spec fn split_salted(payload: Seq<u8>) -> Result<(Seq<u8>, Seq<u8>), ParseError> {
    if has_salted_marker(payload) {
        if payload.len() >= 16 {
            Ok((payload.subrange(8, 16), payload.subrange(16, payload.len() as int)))
        } else {
            Err(ParseError::TruncatedSalt)
        }
    } else {
        Ok((zero_salt(), payload))
    }
}

/// `text` without its trailing NUL character, if it has one.
pub open spec fn strip_trailing_nul(text: Seq<char>) -> Seq<char> {
    if text.len() > 0 && text.last() == '\0' {
        text.drop_last()
    } else {
        text
    }
}

/// What a stored blob text stands for: strip one trailing NUL, decode base64,
/// split off the salt.
pub open spec fn salted_decode_spec(text: Seq<char>) -> Result<(Seq<u8>, Seq<u8>), ParseError> {
    match base64_decoded(strip_trailing_nul(text)) {
        None => Err(ParseError::Base64),
        Some(payload) => split_salted(payload),
    }
}

/// A salted ciphertext in the OpenSSL `enc` layout.
pub struct SaltedString {
    pub salt: Vec<u8>,
    pub data: Vec<u8>,
}

impl SaltedString {
    /// The salt and ciphertext as a pair of sequences.
    pub open spec fn parts(&self) -> (Seq<u8>, Seq<u8>) {
        (self.salt@, self.data@)
    }

    /// Splits a decoded payload into salt and ciphertext.
    pub fn from_payload(payload: &[u8]) -> (r: Result<SaltedString, ParseError>)
        ensures
            match r {
                Ok(s) => split_salted(payload@) == Ok::<(Seq<u8>, Seq<u8>), ParseError>(s.parts()),
                Err(e) => split_salted(payload@) == Err::<(Seq<u8>, Seq<u8>), ParseError>(e),
            },
    {
        let n = payload.len();
        let mut marked = n >= 8;
        let mut i: usize = 0;
        while marked && i < 8
            invariant
                n == payload@.len(),
                i <= 8,
                marked ==> n >= 8,
                marked ==> forall|j: int| 0 <= j < i ==> payload@[j] == salted_marker()[j],
                !marked ==> !has_salted_marker(payload@),
            decreases 9 - i - (if marked { 0int } else { 1int }),
        {
            if payload[i] != SALTED_MARKER[i] {
                assert(payload@.subrange(0, 8)[i as int] != salted_marker()[i as int]);
                marked = false;
            } else {
                i = i + 1;
            }
        }
        if marked {
            assert(payload@.subrange(0, 8) =~= salted_marker());
            if n < 16 {
                return Err(ParseError::TruncatedSalt);
            }
            let salt = slice_to_vec(slice_subrange(payload, 8, 16));
            let data = slice_to_vec(slice_subrange(payload, 16, n));
            Ok(SaltedString { salt, data })
        } else {
            let salt = vec![0u8; SALT_LEN];
            assert(salt@ =~= zero_salt());
            let data = slice_to_vec(payload);
            Ok(SaltedString { salt, data })
        }
    }

    /// Reads a stored blob: drops one trailing NUL character, decodes the
    /// base64 text and splits off the salt.
    pub fn decode(text: &str) -> (r: Result<SaltedString, ParseError>)
        ensures
            match r {
                Ok(s) => salted_decode_spec(text@) == Ok::<(Seq<u8>, Seq<u8>), ParseError>(
                    s.parts(),
                ),
                Err(e) => salted_decode_spec(text@) == Err::<(Seq<u8>, Seq<u8>), ParseError>(e),
            },
    {
        let n = text.unicode_len();
        let body = if n > 0 && text.get_char(n - 1) == '\0' {
            text.substring_char(0, n - 1)
        } else {
            text
        };
        assert(body@ == strip_trailing_nul(text@));
        match from_base64(body) {
            Ok(payload) => SaltedString::from_payload(payload.as_slice()),
            Err(_) => Err(ParseError::Base64),
        }
    }
}

/// A payload made of the marker, an eight-byte salt and a ciphertext splits
/// back into exactly that salt and that ciphertext.
pub proof fn lemma_salted_round_trip(salt: Seq<u8>, ciphertext: Seq<u8>)
    requires
        salt.len() == SALT_LEN,
    ensures
        split_salted(salted_marker() + salt + ciphertext) == Ok::<
            (Seq<u8>, Seq<u8>),
            ParseError,
        >((salt, ciphertext)),
{
    let payload = salted_marker() + salt + ciphertext;
    assert(payload.subrange(0, 8) =~= salted_marker());
    assert(payload.subrange(8, 16) =~= salt);
    assert(payload.subrange(16, payload.len() as int) =~= ciphertext);
}

} // verus!
