//! API keys: 32 secret bytes that a caller presents as URL-safe base64.
use vstd::prelude::*;
use crate::encoding::{
    Base64SliceError, url_safe_decoded, url_safe_encoded, standard_no_pad_encoded, sha256_of,
    url_safe_decode_slice, url_safe_encode, standard_no_pad_encode, sha256_bytes,
};

verus! {

/// An API key.
pub struct ApiKey {
    bytes: [u8; 32],
}

impl View for ApiKey {
    type V = Seq<u8>;

    closed spec fn view(&self) -> Seq<u8> {
        self.bytes@
    }
}

/// `d` followed by zero bytes up to a length of 32.
pub open spec fn zero_padded(d: Seq<u8>) -> Seq<u8> {
    d + Seq::new((32 - d.len()) as nat, |i: int| 0u8)
}

/// The key bytes that a base64 text stands for: what `URL_SAFE` decodes it
/// to, padded with zeros, where that is at most 32 bytes.
pub open spec fn decoded_key(text: Seq<char>) -> Option<Seq<u8>> {
    match url_safe_decoded(text) {
        Some(d) => if d.len() <= 32 {
            Some(zero_padded(d))
        } else {
            None
        },
        None => None,
    }
}

/// The text under which the store files what belongs to a key: its SHA-256
/// digest in unpadded standard base64.
pub open spec fn hash_text(key: Seq<u8>) -> Seq<char> {
    standard_no_pad_encoded(sha256_of(key))
}

/// Calls `rand::RngCore::fill_bytes` on the thread's generator `rand::rng()`.
/// Nothing is claimed of the bytes.
#[verifier::external_body]
fn random_bytes() -> [u8; 32] {
    let mut bytes = [0u8; 32];
    rand::RngCore::fill_bytes(&mut rand::rng(), &mut bytes);
    bytes
}

impl ApiKey {
    /// A key of random bytes.
    pub fn random() -> (k: Self)
        ensures
            k@.len() == 32,
    {
        Self::from_bytes(random_bytes())
    }

    /// The key made of `bytes`.
    pub fn from_bytes(bytes: [u8; 32]) -> (k: Self)
        ensures
            k@ == bytes@,
            k@.len() == 32,
    {
        ApiKey { bytes }
    }

    /// Reads a key from URL-safe base64. A text that decodes to fewer than 32
    /// bytes gives a key padded with zero bytes; one that decodes to more is
    /// refused with `OutputSliceTooSmall`; one that does not decode is refused.
    pub fn from_base64(base64_api_key: &str) -> (r: Result<Self, Base64SliceError>)
        ensures
            r is Ok <==> decoded_key(base64_api_key@) is Some,
            r matches Ok(k) ==> decoded_key(base64_api_key@) == Some(k@) && k@.len() == 32,
            (url_safe_decoded(base64_api_key@) matches Some(d) && d.len() > 32) ==> r
                == Err::<Self, Base64SliceError>(Base64SliceError::OutputSliceTooSmall),
            r matches Err(Base64SliceError::Invalid(_)) ==> url_safe_decoded(base64_api_key@) is None,
    {
        let mut bytes = [0u8; 32];
        let ghost zeros = bytes@;
        assert(zeros =~= Seq::new(32, |i: int| 0u8));
        match url_safe_decode_slice(base64_api_key, &mut bytes) {
            Ok(n) => {
                proof {
                    let d = url_safe_decoded(base64_api_key@)->0;
                    assert(zeros.skip(n as int) =~= Seq::new((32 - d.len()) as nat, |i: int| 0u8));
                }
                Ok(Self::from_bytes(bytes))
            },
            Err(e) => Err(e),
        }
    }

    /// The key as URL-safe base64, which `from_base64` reads back to this key.
    pub fn to_base64(&self) -> (text: String)
        ensures
            text@ == url_safe_encoded(self@),
            decoded_key(text@) == Some(self@),
    {
        let text = url_safe_encode(self.bytes.as_slice());
        assert(zero_padded(self@) =~= self@);
        text
    }

    /// The SHA-256 digest of the key's bytes.
    pub fn hash(&self) -> (digest: Vec<u8>)
        ensures
            digest@ == sha256_of(self@),
            digest@.len() == 32,
    {
        sha256_bytes(self.bytes.as_slice())
    }

    /// The digest of the key in unpadded standard base64: the text under
    /// which the store files the key and what belongs to it.
    pub fn hash_base64(&self) -> (text: String)
        ensures
            text@ == hash_text(self@),
    {
        let digest = self.hash();
        standard_no_pad_encode(digest.as_slice())
    }
}

} // verus!
