//! Rows of the table of API keys: only a key's digest is stored.
use vstd::prelude::*;
use crate::api_key::{ApiKey, hash_text};

verus! {

/// A row of the table of API keys.
pub struct DbApiKey {
    api_key_hash_base64: String,
}

impl DbApiKey {
    /// The digest text, as characters.
    pub closed spec fn spec_hash(&self) -> Seq<char> {
        self.api_key_hash_base64@
    }

    /// The row that files `api_key`: its SHA-256 digest in unpadded base64.
    pub fn new(api_key: &ApiKey) -> (row: Self)
        ensures
            row.spec_hash() == hash_text(api_key@),
    {
        DbApiKey { api_key_hash_base64: api_key.hash_base64() }
    }

    /// The digest text.
    pub fn get_api_key_hash_base64(&self) -> (h: &str)
        ensures
            h@ == self.spec_hash(),
    {
        self.api_key_hash_base64.as_str()
    }
}

} // verus!
