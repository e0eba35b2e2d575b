//! The client's side of a request: where it goes and how the caller is named.
use vstd::prelude::*;
use crate::api_key::{ApiKey, decoded_key};
use crate::encoding::url_safe_encoded;

verus! {

#[verifier::external_type_specification]
#[verifier::external_body]
pub struct ExUrlParseError(url::ParseError);

/// The address of the public server.
pub const DEFAULT_SERVER_URL: &'static str = "https://api.keys.kent.software";

/// The serialization of what `url::Url::parse` makes of `text`, or `None`
/// where `text` is no absolute URL.
pub uninterp spec fn url_parsed(text: Seq<char>) -> Option<Seq<char>>;

/// The serialization of what `url::Url::join` makes of `reference` against
/// the URL serialized as `base`, or `None` where that fails.
pub uninterp spec fn url_joined(base: Seq<char>, reference: Seq<char>) -> Option<Seq<char>>;

/// Calls `url::Url::parse` and serializes the result. Claims that it succeeds
/// exactly where `url_parsed` is a URL, and gives that URL; which parse error
/// comes is not stated.
#[verifier::external_body]
fn parse_url(text: &str) -> (r: Result<String, url::ParseError>)
    ensures
        match r {
            Ok(s) => url_parsed(text@) == Some(s@),
            Err(_) => url_parsed(text@) is None,
        },
{
    url::Url::parse(text).map(String::from)
}

/// Calls `url::Url::join` on the URL serialized as `base` (read back with
/// `Url::parse`, which gives the same URL for a serialization) and serializes
/// the result. Claims that it succeeds exactly where `url_joined` is a URL,
/// and gives that URL; which parse error comes is not stated.
#[verifier::external_body]
fn join_url(base: &str, reference: &str) -> (r: Result<String, url::ParseError>)
    ensures
        match r {
            Ok(s) => url_joined(base@, reference@) == Some(s@),
            Err(_) => url_joined(base@, reference@) is None,
        },
{
    match url::Url::parse(base) {
        Ok(u) => u.join(reference).map(String::from),
        Err(e) => Err(e),
    }
}

/// The path, relative to the server, under which `key` is read and written.
pub open spec fn key_value_path(key: Seq<char>) -> Seq<char> {
    "key_value/"@ + key
}

/// The path of a key is the ten characters `key_value/` followed by the
/// key's characters, each unchanged and in order.
pub proof fn law_key_value_path_keeps_key(key: Seq<char>)
    ensures
        key_value_path(key).len() == key.len() + 10,
        key_value_path(key).take(10) == seq!['k', 'e', 'y', '_', 'v', 'a', 'l', 'u', 'e', '/'],
        key_value_path(key).skip(10) == key,
{
    reveal_strlit("key_value/");
    assert("key_value/"@ =~= seq!['k', 'e', 'y', '_', 'v', 'a', 'l', 'u', 'e', '/']);
    assert(key_value_path(key).take(10) =~= "key_value/"@);
    assert(key_value_path(key).skip(10) =~= key);
}

/// A client of the store: the server it talks to and the key it presents.
pub struct KeysClient {
    server_url: String,
    api_key: ApiKey,
}

impl KeysClient {
    /// The server's URL, as characters.
    pub closed spec fn spec_server_url(&self) -> Seq<char> {
        self.server_url@
    }

    /// The bytes of the key that the client presents.
    pub closed spec fn spec_api_key(&self) -> Seq<u8> {
        self.api_key@
    }

    /// A client of the server at `server_url`, which must be a URL.
    pub fn new(server_url: &str, api_key: ApiKey) -> (c: Self)
        requires
            url_parsed(server_url@) is Some,
        ensures
            url_parsed(server_url@) == Some(c.spec_server_url()),
            c.spec_api_key() == api_key@,
    {
        match parse_url(server_url) {
            Ok(url) => KeysClient { server_url: url, api_key },
            Err(_) => {
                proof {
                    assert(false);
                }
                KeysClient { server_url: String::new(), api_key }
            },
        }
    }

    /// A client of the server at `server_url`; `None` where it is no URL.
    pub fn try_new(server_url: &str, api_key: ApiKey) -> (r: Option<Self>)
        ensures
            r is Some <==> url_parsed(server_url@) is Some,
            r matches Some(c) ==> url_parsed(server_url@) == Some(c.spec_server_url())
                && c.spec_api_key() == api_key@,
    {
        match parse_url(server_url) {
            Ok(_) => Some(Self::new(server_url, api_key)),
            Err(_) => None,
        }
    }

    /// The URL at which `key` is read, set and deleted.
    pub fn key_value_url(&self, key: &str) -> (r: Result<String, url::ParseError>)
        ensures
            match r {
                Ok(u) => url_joined(self.spec_server_url(), key_value_path(key@)) == Some(u@),
                Err(_) => url_joined(self.spec_server_url(), key_value_path(key@)) is None,
            },
    {
        let mut path = String::from_str("key_value/");
        path.append(key);
        join_url(self.server_url.as_str(), path.as_str())
    }

    /// The bearer token that names the caller: the key in URL-safe base64,
    /// which the server's `authorize` reads back to the same key.
    pub fn bearer_token(&self) -> (t: String)
        ensures
            t@ == url_safe_encoded(self.spec_api_key()),
            decoded_key(t@) == Some(self.spec_api_key()),
    {
        self.api_key.to_base64()
    }
}

} // verus!
