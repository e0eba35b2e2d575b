//! The server's master key and the AES-256-GCM sealing of stored values.
use vstd::prelude::*;
use aes_gcm::aead::{Aead, AeadCore, KeyInit};
use crate::encoding::{standard_no_pad_decoded, standard_no_pad_encoded, standard_no_pad_decode, standard_no_pad_encode};

verus! {

/// The longest plaintext that AES-256-GCM seals (`aes_gcm::P_MAX`, 2^36 bytes).
pub const MAX_PLAINTEXT_LEN: u64 = 68_719_476_736;

/// What `Aes256Gcm::encrypt` gives for a key, a nonce and a plaintext: the
/// ciphertext followed by the tag.
pub uninterp spec fn aes256_gcm_sealed(key: Seq<u8>, nonce: Seq<u8>, plaintext: Seq<u8>) -> Seq<u8>;

/// What `Aes256Gcm::decrypt` gives for a key, a nonce and a sealed text, or
/// `None` where the tag does not authenticate it.
pub uninterp spec fn aes256_gcm_opened(key: Seq<u8>, nonce: Seq<u8>, sealed: Seq<u8>) -> Option<Seq<u8>>;

/// Calls `Aead::encrypt` of `aes_gcm::Aes256Gcm`, with no associated data.
/// Claims, from the crate's source, that it succeeds exactly on plaintexts of
/// at most `MAX_PLAINTEXT_LEN` bytes, that it gives `aes256_gcm_sealed`, and
/// that `decrypt` with the same key and nonce gives the plaintext back (the
/// correctness of the AEAD), and that the sealed text is the plaintext's
/// length plus the 16-byte tag that `encrypt_in_place` appends.
#[verifier::external_body]
fn aes256_gcm_encrypt(key: &[u8; 32], nonce: &[u8; 12], plaintext: &[u8]) -> (r: Option<Vec<u8>>)
    ensures
        r is Some <==> plaintext@.len() <= MAX_PLAINTEXT_LEN,
        r matches Some(c) ==> c@.len() == plaintext@.len() + 16,
        r matches Some(c) ==> c@ == aes256_gcm_sealed(key@, nonce@, plaintext@),
        r matches Some(c) ==> aes256_gcm_opened(key@, nonce@, c@) == Some(plaintext@),
{
    let cipher = aes_gcm::Aes256Gcm::new(aes_gcm::Key::<aes_gcm::Aes256Gcm>::from_slice(key));
    cipher.encrypt(aes_gcm::aead::Nonce::<aes_gcm::Aes256Gcm>::from_slice(nonce), plaintext).ok()
}

/// Calls `Aead::decrypt` of `aes_gcm::Aes256Gcm`, with no associated data.
/// Claims that it succeeds exactly where `aes256_gcm_opened` is a plaintext,
/// and gives that plaintext.
#[verifier::external_body]
fn aes256_gcm_decrypt(key: &[u8; 32], nonce: &[u8; 12], sealed: &[u8]) -> (r: Option<Vec<u8>>)
    ensures
        match r {
            Some(p) => aes256_gcm_opened(key@, nonce@, sealed@) == Some(p@),
            None => aes256_gcm_opened(key@, nonce@, sealed@) is None,
        },
{
    let cipher = aes_gcm::Aes256Gcm::new(aes_gcm::Key::<aes_gcm::Aes256Gcm>::from_slice(key));
    cipher.decrypt(aes_gcm::aead::Nonce::<aes_gcm::Aes256Gcm>::from_slice(nonce), sealed).ok()
}

/// Calls `AeadCore::generate_nonce` of `Aes256Gcm` with the system's generator
/// `aead::OsRng`. Nothing is claimed of the bytes.
#[verifier::external_body]
pub(crate) fn random_nonce() -> [u8; 12] {
    aes_gcm::Aes256Gcm::generate_nonce(&mut aes_gcm::aead::OsRng).into()
}

/// Calls `KeyInit::generate_key` of `Aes256Gcm` with the system's generator
/// `aead::OsRng`. Nothing is claimed of the bytes.
#[verifier::external_body]
fn random_key() -> [u8; 32] {
    aes_gcm::Aes256Gcm::generate_key(aes_gcm::aead::OsRng).into()
}

/// The bytes of a master key written as `text`: what `STANDARD_NO_PAD`
/// decodes it to, where that is 32 bytes.
pub open spec fn decoded_master_key(text: Seq<char>) -> Option<Seq<u8>> {
    match standard_no_pad_decoded(text) {
        Some(d) => if d.len() == 32 {
            Some(d)
        } else {
            None
        },
        None => None,
    }
}

/// The first 32 bytes of `v` as an array.
pub(crate) fn array32(v: &Vec<u8>) -> (a: [u8; 32])
    requires
        v@.len() == 32,
    ensures
        a@ == v@,
{
    let mut a = [0u8; 32];
    for i in 0..32
        invariant
            v@.len() == 32,
            a@.len() == 32,
            forall|j: int| 0 <= j < i ==> a@[j] == v@[j],
    {
        a[i] = v[i];
    }
    assert(a@ =~= v@);
    a
}

/// The first 12 bytes of `v` as an array.
pub(crate) fn array12(v: &Vec<u8>) -> (a: [u8; 12])
    requires
        v@.len() == 12,
    ensures
        a@ == v@,
{
    let mut a = [0u8; 12];
    for i in 0..12
        invariant
            v@.len() == 12,
            a@.len() == 12,
            forall|j: int| 0 <= j < i ==> a@[j] == v@[j],
    {
        a[i] = v[i];
    }
    assert(a@ =~= v@);
    a
}

/// The key under which the server seals every stored value.
pub struct MasterKey {
    bytes: [u8; 32],
}

impl View for MasterKey {
    type V = Seq<u8>;

    closed spec fn view(&self) -> Seq<u8> {
        self.bytes@
    }
}

impl MasterKey {
    /// Reads a master key from unpadded standard base64; `None` where the text
    /// does not decode to exactly 32 bytes.
    pub fn from_base64(master_key_base64: &str) -> (r: Option<Self>)
        ensures
            r is Some <==> decoded_master_key(master_key_base64@) is Some,
            r matches Some(k) ==> decoded_master_key(master_key_base64@) == Some(k@),
    {
        match standard_no_pad_decode(master_key_base64) {
            Ok(v) => if v.len() == 32 {
                Some(MasterKey { bytes: array32(&v) })
            } else {
                None
            },
            Err(_) => None,
        }
    }

    /// Seals `plaintext` under this key and `nonce`; `None` where it is longer
    /// than `MAX_PLAINTEXT_LEN`.
    pub fn seal(&self, nonce: &[u8; 12], plaintext: &[u8]) -> (r: Option<Vec<u8>>)
        ensures
            r is Some <==> plaintext@.len() <= MAX_PLAINTEXT_LEN,
            r matches Some(c) ==> c@.len() == plaintext@.len() + 16,
            r matches Some(c) ==> c@ == aes256_gcm_sealed(self@, nonce@, plaintext@),
            r matches Some(c) ==> aes256_gcm_opened(self@, nonce@, c@) == Some(plaintext@),
    {
        aes256_gcm_encrypt(&self.bytes, nonce, plaintext)
    }

    /// Opens `sealed` under this key and `nonce`; `None` where it does not
    /// authenticate.
    pub fn open(&self, nonce: &[u8; 12], sealed: &[u8]) -> (r: Option<Vec<u8>>)
        ensures
            match r {
                Some(p) => aes256_gcm_opened(self@, nonce@, sealed@) == Some(p@),
                None => aes256_gcm_opened(self@, nonce@, sealed@) is None,
            },
    {
        aes256_gcm_decrypt(&self.bytes, nonce, sealed)
    }
}

/// A fresh random master key in unpadded standard base64, the form in which
/// `MasterKey::from_base64` reads it back.
pub fn generate_key() -> (text: String)
    ensures
        exists|k: Seq<u8>| #![auto]
            k.len() == 32 && text@ == standard_no_pad_encoded(k) && decoded_master_key(text@) == Some(k),
{
    let key = random_key();
    let text = standard_no_pad_encode(key.as_slice());
    assert(key@.len() == 32);
    text
}

} // verus!
