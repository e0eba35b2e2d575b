//! What the HTTP server decides: who a caller is, and what it answers.
use vstd::prelude::*;
use crate::api_key::{ApiKey, decoded_key};
use crate::cipher::MasterKey;
use crate::db::key_value::DbKeyValue;
use crate::encoding::url_safe_encoded;
use crate::key_value::KeyValue;

verus! {

/// Why a request was refused.
#[derive(Debug, Clone, Copy, PartialEq, Eq, Structural)]
pub enum ApiError {
    /// The bearer token is no API key (answered with status 401).
    Unauthorized,
}

/// The API key that a bearer token stands for; `Unauthorized` where the token
/// is no URL-safe base64 of at most 32 bytes.
pub fn authorize(token: &str) -> (r: Result<ApiKey, ApiError>)
    ensures
        r is Ok <==> decoded_key(token@) is Some,
        r matches Ok(k) ==> decoded_key(token@) == Some(k@),
        r is Err ==> r == Err::<ApiKey, ApiError>(ApiError::Unauthorized),
{
    match ApiKey::from_base64(token) {
        Ok(api_key) => Ok(api_key),
        Err(_) => Err(ApiError::Unauthorized),
    }
}

/// The answer for `key` given the row that the database holds for it, if
/// any: the row's key and opened value, or `key` with no value. `None` where
/// the row does not open under `master_key`.
pub fn key_value_reply(key: String, found: Option<DbKeyValue>, master_key: &MasterKey) -> (r: Option<KeyValue>)
    ensures
        match found {
            Some(row) => match row.decrypted_value(master_key@) {
                Some(v) => r matches Some(kv) && kv.spec_key() == row.spec_key() && kv.spec_value() == Some(v),
                None => r is None,
            },
            None => r matches Some(kv) && kv.spec_key() == key@ && kv.spec_value() is None,
        },
{
    match found {
        Some(row) => match row.decrypt_value(master_key) {
            Some(value) => {
                let kv = KeyValue::new(row.get_key().to_string(), Some(value));
                Some(kv)
            },
            None => None,
        },
        None => Some(KeyValue::new(key, None)),
    }
}

/// The answer listing every row of a caller: each row's key and opened value,
/// in the order of `rows`. `None` where a row does not open under `master_key`.
pub fn key_values_reply(rows: &Vec<DbKeyValue>, master_key: &MasterKey) -> (r: Option<Vec<KeyValue>>)
    ensures
        r is Some <==> forall|i: int| 0 <= i < rows@.len() ==> (#[trigger] rows@[i].decrypted_value(master_key@)) is Some,
        r matches Some(kvs) ==> kvs@.len() == rows@.len() && forall|i: int| 0 <= i < rows@.len() ==> {
            &&& (#[trigger] kvs@[i]).spec_key() == rows@[i].spec_key()
            &&& kvs@[i].spec_value() == rows@[i].decrypted_value(master_key@)
        },
{
    let mut kvs: Vec<KeyValue> = Vec::new();
    for i in 0..rows.len()
        invariant
            kvs@.len() == i,
            forall|j: int| 0 <= j < i ==> (#[trigger] rows@[j].decrypted_value(master_key@)) is Some,
            forall|j: int| 0 <= j < i ==> {
                &&& (#[trigger] kvs@[j]).spec_key() == rows@[j].spec_key()
                &&& kvs@[j].spec_value() == rows@[j].decrypted_value(master_key@)
            },
    {
        match rows[i].decrypt_value(master_key) {
            Some(value) => {
                kvs.push(KeyValue::new(rows[i].get_key().to_string(), Some(value)));
            },
            None => {
                return None;
            },
        }
    }
    Some(kvs)
}

/// The answer to a request for a new API key: the key in URL-safe base64.
pub struct CreateApiKeyResponse {
    api_key: String,
}

impl CreateApiKeyResponse {
    /// The key's text, as characters.
    pub closed spec fn spec_api_key(&self) -> Seq<char> {
        self.api_key@
    }

    /// The answer that hands out `api_key`.
    pub fn new(api_key: &ApiKey) -> (r: Self)
        ensures
            r.spec_api_key() == url_safe_encoded(api_key@),
            decoded_key(r.spec_api_key()) == Some(api_key@),
    {
        CreateApiKeyResponse { api_key: api_key.to_base64() }
    }

    /// The key's text.
    pub fn get_api_key(&self) -> (k: &str)
        ensures
            k@ == self.spec_api_key(),
    {
        self.api_key.as_str()
    }
}

/// The body of a request that sets a value.
pub struct SetKeyValueRequest {
    value: String,
}

impl SetKeyValueRequest {
    /// The value, as characters.
    pub closed spec fn spec_value(&self) -> Seq<char> {
        self.value@
    }

    /// The request that sets `value`.
    pub fn new(value: String) -> (r: Self)
        ensures
            r.spec_value() == value@,
    {
        SetKeyValueRequest { value }
    }

    /// The value.
    pub fn get_value(&self) -> (v: &str)
        ensures
            v@ == self.spec_value(),
    {
        self.value.as_str()
    }

    /// The value, taken out of the request.
    pub fn into_value(self) -> (v: String)
        ensures
            v@ == self.spec_value(),
    {
        self.value
    }
}

} // verus!
