//! Rows of the table of values: each value is sealed under the master key
//! with a fresh nonce, and filed under the digest of its owner's API key.
use vstd::prelude::*;
use crate::api_key::{ApiKey, hash_text};
use crate::cipher::{
    MasterKey, MAX_PLAINTEXT_LEN, aes256_gcm_sealed, aes256_gcm_opened, random_nonce, array12,
};
use crate::encoding::{
    Base64Error, standard_no_pad_decoded, standard_no_pad_encoded, standard_no_pad_decode,
    standard_no_pad_encode, string_from_utf8,
};
use crate::key_value::KeyValue;
use vstd::utf8::{valid_utf8, decode_utf8};
use vstd::string::StringSliceAdditionalSpecFns;

verus! {

/// The text that a stored nonce and sealed value open to under `master`:
/// both decode from unpadded base64, the nonce has 12 bytes, the seal
/// authenticates and the plaintext is UTF-8. `None` where a step fails.
pub open spec fn opened_value(master: Seq<u8>, nonce_base64: Seq<char>, cipher_base64: Seq<char>) -> Option<Seq<char>> {
    match (standard_no_pad_decoded(nonce_base64), standard_no_pad_decoded(cipher_base64)) {
        (Some(nonce), Some(sealed)) => if nonce.len() == 12 {
            match aes256_gcm_opened(master, nonce, sealed) {
                Some(plain) => if valid_utf8(plain) {
                    Some(decode_utf8(plain))
                } else {
                    None
                },
                None => None,
            }
        } else {
            None
        },
        _ => None,
    }
}

/// A row of the table of values.
pub struct DbKeyValue {
    api_key_hash_base64: String,
    key: String,
    cipher_value_base64: String,
    nonce_base64: String,
}

impl DbKeyValue {
    /// The digest text of the owner's API key, as characters.
    pub closed spec fn spec_hash(&self) -> Seq<char> {
        self.api_key_hash_base64@
    }

    /// The key, as characters.
    pub closed spec fn spec_key(&self) -> Seq<char> {
        self.key@
    }

    /// The sealed value in unpadded base64, as characters.
    pub closed spec fn spec_cipher(&self) -> Seq<char> {
        self.cipher_value_base64@
    }

    /// The nonce in unpadded base64, as characters.
    pub closed spec fn spec_nonce(&self) -> Seq<char> {
        self.nonce_base64@
    }

    /// The value that the row holds for `master`, where it opens.
    pub open spec fn decrypted_value(&self, master: Seq<u8>) -> Option<Seq<char>> {
        opened_value(master, self.spec_nonce(), self.spec_cipher())
    }

    /// The row as the database gives it back.
    pub fn from_columns(
        api_key_hash_base64: String,
        key: String,
        cipher_value_base64: String,
        nonce_base64: String,
    ) -> (row: Self)
        ensures
            row.spec_hash() == api_key_hash_base64@,
            row.spec_key() == key@,
            row.spec_cipher() == cipher_value_base64@,
            row.spec_nonce() == nonce_base64@,
    {
        DbKeyValue { api_key_hash_base64, key, cipher_value_base64, nonce_base64 }
    }

    /// The row that stores `value` under `key` for `api_key`, sealed under
    /// `master_key` with `nonce`. It opens to `value` again.
    pub fn with_nonce(
        api_key: &ApiKey,
        key: String,
        value: &str,
        master_key: &MasterKey,
        nonce: [u8; 12],
    ) -> (row: Self)
        requires
            value.spec_bytes().len() <= MAX_PLAINTEXT_LEN,
        ensures
            row.spec_hash() == hash_text(api_key@),
            row.spec_key() == key@,
            row.spec_cipher() == standard_no_pad_encoded(
                aes256_gcm_sealed(master_key@, nonce@, value.spec_bytes()),
            ),
            row.spec_nonce() == standard_no_pad_encoded(nonce@),
            standard_no_pad_decoded(row.spec_nonce()) == Some(nonce@),
            standard_no_pad_decoded(row.spec_cipher()) == Some(
                aes256_gcm_sealed(master_key@, nonce@, value.spec_bytes()),
            ),
            aes256_gcm_sealed(master_key@, nonce@, value.spec_bytes()).len() == value.spec_bytes().len() + 16,
            row.decrypted_value(master_key@) == Some(value@),
    {
        let api_key_hash_base64 = api_key.hash_base64();
        let plain = value.as_bytes();
        let sealed = match master_key.seal(&nonce, plain) {
            Some(c) => c,
            None => {
                proof {
                    assert(false);
                }
                Vec::new()
            },
        };
        let cipher_value_base64 = standard_no_pad_encode(sealed.as_slice());
        let nonce_base64 = standard_no_pad_encode(nonce.as_slice());
        proof {
            vstd::utf8::encode_utf8_valid_utf8(value@);
            vstd::utf8::encode_utf8_decode_utf8(value@);
        }
        DbKeyValue { api_key_hash_base64, key, cipher_value_base64, nonce_base64 }
    }

    /// The row that stores `value` under `key` for `api_key`, sealed under
    /// `master_key` with a fresh random nonce. It opens to `value` again.
    pub fn new(api_key: &ApiKey, key: String, value: &str, master_key: &MasterKey) -> (row: Self)
        requires
            value.spec_bytes().len() <= MAX_PLAINTEXT_LEN,
        ensures
            row.spec_hash() == hash_text(api_key@),
            row.spec_key() == key@,
            exists|nonce: Seq<u8>|
                {
                    &&& nonce.len() == 12
                    &&& row.spec_nonce() == standard_no_pad_encoded(nonce)
                    &&& row.spec_cipher() == standard_no_pad_encoded(
                        aes256_gcm_sealed(master_key@, nonce, value.spec_bytes()),
                    )
                    &&& standard_no_pad_decoded(row.spec_nonce()) == Some(nonce)
                    &&& standard_no_pad_decoded(row.spec_cipher()) == Some(
                        aes256_gcm_sealed(master_key@, nonce, value.spec_bytes()),
                    )
                    &&& aes256_gcm_sealed(master_key@, nonce, value.spec_bytes()).len()
                        == value.spec_bytes().len() + 16
                },
            row.decrypted_value(master_key@) == Some(value@),
    {
        let nonce = random_nonce();
        let row = Self::with_nonce(api_key, key, value, master_key, nonce);
        assert(nonce@.len() == 12);
        row
    }

    /// The digest text of the owner's API key.
    pub fn get_api_key_hash_base64(&self) -> (h: &str)
        ensures
            h@ == self.spec_hash(),
    {
        self.api_key_hash_base64.as_str()
    }

    /// The key.
    pub fn get_key(&self) -> (k: &str)
        ensures
            k@ == self.spec_key(),
    {
        self.key.as_str()
    }

    /// The sealed value in unpadded base64.
    pub fn get_cipher_value_base64(&self) -> (c: &str)
        ensures
            c@ == self.spec_cipher(),
    {
        self.cipher_value_base64.as_str()
    }

    /// The sealed value's bytes.
    pub fn get_cipher_value_bytes(&self) -> (r: Result<Vec<u8>, Base64Error>)
        ensures
            match r {
                Ok(v) => standard_no_pad_decoded(self.spec_cipher()) == Some(v@),
                Err(_) => standard_no_pad_decoded(self.spec_cipher()) is None,
            },
    {
        standard_no_pad_decode(self.get_cipher_value_base64())
    }

    /// The nonce in unpadded base64.
    pub fn get_nonce_base64(&self) -> (n: &str)
        ensures
            n@ == self.spec_nonce(),
    {
        self.nonce_base64.as_str()
    }

    /// The nonce's bytes.
    pub fn get_nonce_bytes(&self) -> (r: Result<Vec<u8>, Base64Error>)
        ensures
            match r {
                Ok(v) => standard_no_pad_decoded(self.spec_nonce()) == Some(v@),
                Err(_) => standard_no_pad_decoded(self.spec_nonce()) is None,
            },
    {
        standard_no_pad_decode(self.get_nonce_base64())
    }

    /// The stored value opened under `master_key`; `None` where the row does
    /// not open to a text.
    pub fn decrypt_value(&self, master_key: &MasterKey) -> (r: Option<String>)
        ensures
            match r {
                Some(s) => self.decrypted_value(master_key@) == Some(s@),
                None => self.decrypted_value(master_key@) is None,
            },
    {
        let nonce_bytes = match self.get_nonce_bytes() {
            Ok(n) => n,
            Err(_) => return None,
        };
        if nonce_bytes.len() != 12 {
            return None;
        }
        let nonce = array12(&nonce_bytes);
        let sealed = match self.get_cipher_value_bytes() {
            Ok(c) => c,
            Err(_) => return None,
        };
        match master_key.open(&nonce, sealed.as_slice()) {
            Some(plain) => string_from_utf8(plain),
            None => None,
        }
    }

    /// The stored value, for a row that opens under `master_key`.
    pub fn get_value(&self, master_key: &MasterKey) -> (v: String)
        requires
            self.decrypted_value(master_key@) is Some,
        ensures
            self.decrypted_value(master_key@) == Some(v@),
    {
        match self.decrypt_value(master_key) {
            Some(v) => v,
            None => {
                proof {
                    assert(false);
                }
                String::new()
            },
        }
    }

    /// The key and its opened value, for a row that opens under `master_key`.
    pub fn into_key_value(self, master_key: &MasterKey) -> (kv: KeyValue)
        requires
            self.decrypted_value(master_key@) is Some,
        ensures
            kv.spec_key() == self.spec_key(),
            kv.spec_value() == self.decrypted_value(master_key@),
    {
        let v = self.get_value(master_key);
        KeyValue::new(self.key, Some(v))
    }
}

} // verus!
