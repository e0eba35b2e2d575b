use base64::Engine;
use keys::api::{authorize, key_value_reply, key_values_reply, ApiError, CreateApiKeyResponse, SetKeyValueRequest};
use keys::api_key::ApiKey;
use keys::cipher::{generate_key, MasterKey};
use keys::db::api_key::DbApiKey;
use keys::db::key_value::DbKeyValue;
use keys::db::DbKeyValue as PlainDbKeyValue;
use keys::encoding::Base64Error;

const MASTER: &str = "AAECAwQFBgcICQoLDA0ODxAREhMUFRYXGBkaGxwdHh8";

fn counting<const N: usize>() -> [u8; N] {
    let mut bytes = [0u8; N];
    for (i, b) in bytes.iter_mut().enumerate() {
        *b = i as u8;
    }
    bytes
}

fn no_pad(bytes: &[u8]) -> String {
    base64::engine::general_purpose::STANDARD_NO_PAD.encode(bytes)
}

#[test]
fn master_key_reads_32_bytes() {
    assert!(MasterKey::from_base64(MASTER).is_some());
}

#[test]
fn master_key_refuses_other_lengths_and_padding() {
    assert!(MasterKey::from_base64("AAECAwQFBgcICQoLDA0ODxAREhMUFRYXGBkaGxwdHg").is_none());
    assert!(MasterKey::from_base64("AAECAwQFBgcICQoLDA0ODxAREhMUFRYXGBkaGxwdHh8=").is_none());
    assert!(MasterKey::from_base64("not base64!").is_none());
}

#[test]
fn generated_master_key_is_accepted() {
    let text = generate_key();
    assert_eq!(text.len(), 43);
    assert!(MasterKey::from_base64(&text).is_some());
    assert_ne!(generate_key(), text);
}

#[test]
fn seal_matches_aes_gcm_vector() {
    let master = MasterKey::from_base64(MASTER).unwrap();
    let sealed = master.seal(&counting::<12>(), b"hello").unwrap();
    assert_eq!(no_pad(&sealed), "L2e6d6onl/81O4oEbSgjbc2dBXu7");
    assert_eq!(master.open(&counting::<12>(), &sealed).unwrap(), b"hello".to_vec());
}

#[test]
fn open_refuses_tampered_text() {
    let master = MasterKey::from_base64(MASTER).unwrap();
    let mut sealed = master.seal(&counting::<12>(), b"hello").unwrap();
    sealed[0] ^= 1;
    assert!(master.open(&counting::<12>(), &sealed).is_none());
    assert!(master.open(&counting::<12>(), &[1, 2, 3]).is_none());
}

#[test]
fn row_with_nonce_has_exact_columns() {
    let master = MasterKey::from_base64(MASTER).unwrap();
    let api_key = ApiKey::from_bytes([0u8; 32]);
    let row = DbKeyValue::with_nonce(&api_key, "greeting".to_string(), "hello", &master, counting::<12>());
    assert_eq!(row.get_api_key_hash_base64(), "Zmh6rfhivXdsj8GLjp+OIAiXFIVu4jOzkCpZHQ1fKSU");
    assert_eq!(row.get_key(), "greeting");
    assert_eq!(row.get_cipher_value_base64(), "L2e6d6onl/81O4oEbSgjbc2dBXu7");
    assert_eq!(row.get_nonce_base64(), "AAECAwQFBgcICQoL");
    assert_eq!(row.get_nonce_bytes().unwrap(), counting::<12>().to_vec());
    assert_eq!(row.get_cipher_value_bytes().unwrap().len(), 5 + 16);
    assert_eq!(row.get_value(&master), "hello");
}

#[test]
fn stored_value_reads_back() {
    let master = MasterKey::from_base64(MASTER).unwrap();
    let api_key = ApiKey::random();
    let row = DbKeyValue::new(&api_key, "TOKEN".to_string(), "s3cr3t ✓", &master);
    assert_eq!(row.get_api_key_hash_base64(), api_key.hash_base64());
    assert_eq!(row.get_api_key_hash_base64(), DbApiKey::new(&api_key).get_api_key_hash_base64());
    assert_eq!(row.decrypt_value(&master).as_deref(), Some("s3cr3t ✓"));
    let kv = row.into_key_value(&master);
    assert_eq!(kv.get_key(), "TOKEN");
    assert_eq!(kv.get_value(), Some("s3cr3t ✓"));
}

#[test]
fn fresh_nonces_differ() {
    let master = MasterKey::from_base64(MASTER).unwrap();
    let api_key = ApiKey::from_bytes([0u8; 32]);
    let a = DbKeyValue::new(&api_key, "k".to_string(), "v", &master);
    let b = DbKeyValue::new(&api_key, "k".to_string(), "v", &master);
    assert_ne!(a.get_nonce_base64(), b.get_nonce_base64());
    assert_eq!(a.get_value(&master), b.get_value(&master));
}

#[test]
fn other_master_key_does_not_open() {
    let master = MasterKey::from_base64(MASTER).unwrap();
    let other = MasterKey::from_base64(&generate_key()).unwrap();
    let row = DbKeyValue::new(&ApiKey::random(), "k".to_string(), "v", &master);
    assert!(row.decrypt_value(&other).is_none());
}

#[test]
fn undecodable_columns_do_not_open() {
    let master = MasterKey::from_base64(MASTER).unwrap();
    let row = DbKeyValue::from_columns("h".to_string(), "k".to_string(), "L2e6d6onl/81O4oEbSgjbc2dBXu7".to_string(), "***".to_string());
    assert!(matches!(row.get_nonce_bytes(), Err(Base64Error::InvalidByte(0, b'*'))));
    assert!(row.decrypt_value(&master).is_none());
    let short_nonce = DbKeyValue::from_columns("h".to_string(), "k".to_string(), "L2e6d6onl/81O4oEbSgjbc2dBXu7".to_string(), no_pad(&[0, 1, 2]));
    assert!(short_nonce.decrypt_value(&master).is_none());
    let good = DbKeyValue::from_columns("h".to_string(), "k".to_string(), "L2e6d6onl/81O4oEbSgjbc2dBXu7".to_string(), "AAECAwQFBgcICQoL".to_string());
    assert_eq!(good.decrypt_value(&master).as_deref(), Some("hello"));
}

#[test]
fn non_utf8_plaintext_does_not_open() {
    let master = MasterKey::from_base64(MASTER).unwrap();
    let sealed = master.seal(&counting::<12>(), &[0xff, 0xfe]).unwrap();
    let row = DbKeyValue::from_columns("h".to_string(), "k".to_string(), no_pad(&sealed), no_pad(&counting::<12>()));
    assert!(row.decrypt_value(&master).is_none());
}

#[test]
fn plain_row_getters() {
    let row = PlainDbKeyValue::new("store".to_string(), "key".to_string(), "value".to_string());
    assert_eq!(row.get_store(), "store");
    assert_eq!(row.get_key(), "key");
    assert_eq!(row.get_value(), "value");
}

#[test]
fn api_key_row_holds_digest() {
    let row = DbApiKey::new(&ApiKey::from_bytes([0u8; 32]));
    assert_eq!(row.get_api_key_hash_base64(), "Zmh6rfhivXdsj8GLjp+OIAiXFIVu4jOzkCpZHQ1fKSU");
}

#[test]
fn authorize_accepts_issued_keys() {
    let api_key = ApiKey::random();
    let response = CreateApiKeyResponse::new(&api_key);
    let caller = authorize(response.get_api_key()).unwrap();
    assert_eq!(caller.hash_base64(), api_key.hash_base64());
}

#[test]
fn authorize_refuses_bad_tokens() {
    assert!(matches!(authorize("not a key"), Err(ApiError::Unauthorized)));
    assert!(matches!(
        authorize("AAAAAAAAAAAAAAAAAAAAAAAAAAAAAAAAAAAAAAAAAAAAAAAAAAAAAAAAAAAAAAAA"),
        Err(ApiError::Unauthorized)
    ));
}

#[test]
fn reply_for_missing_row_has_no_value() {
    let master = MasterKey::from_base64(MASTER).unwrap();
    let kv = key_value_reply("NOPE".to_string(), None, &master).unwrap();
    assert_eq!(kv.get_key(), "NOPE");
    assert_eq!(kv.get_value(), None);
}

#[test]
fn reply_after_set_gives_the_value() {
    let master = MasterKey::from_base64(MASTER).unwrap();
    let api_key = ApiKey::random();
    let request = SetKeyValueRequest::new("v1".to_string());
    assert_eq!(request.get_value(), "v1");
    let row = DbKeyValue::new(&api_key, "K".to_string(), request.get_value(), &master);
    let kv = key_value_reply("K".to_string(), Some(row), &master).unwrap();
    assert_eq!(kv.get_key(), "K");
    assert_eq!(kv.get_value(), Some("v1"));
    assert_eq!(request.into_value(), "v1");
}

#[test]
fn reply_for_row_that_does_not_open() {
    let master = MasterKey::from_base64(MASTER).unwrap();
    let row = DbKeyValue::from_columns("h".to_string(), "K".to_string(), "AAAA".to_string(), "AAAA".to_string());
    assert!(key_value_reply("K".to_string(), Some(row), &master).is_none());
}

#[test]
fn list_reply_keeps_order() {
    let master = MasterKey::from_base64(MASTER).unwrap();
    let api_key = ApiKey::random();
    let rows = vec![
        DbKeyValue::new(&api_key, "A".to_string(), "1", &master),
        DbKeyValue::new(&api_key, "B".to_string(), "2", &master),
    ];
    let kvs = key_values_reply(&rows, &master).unwrap();
    assert_eq!(kvs.len(), 2);
    assert_eq!((kvs[0].get_key(), kvs[0].get_value()), ("A", Some("1")));
    assert_eq!((kvs[1].get_key(), kvs[1].get_value()), ("B", Some("2")));
    assert!(key_values_reply(&Vec::new(), &master).unwrap().is_empty());
    let mut bad = rows;
    bad.push(DbKeyValue::from_columns("h".to_string(), "C".to_string(), "AAAA".to_string(), "AAAA".to_string()));
    assert!(key_values_reply(&bad, &master).is_none());
}

#[test]
fn base64_error_variants() {
    let nonce = |n: &str| DbKeyValue::from_columns(String::new(), String::new(), String::new(), n.to_string());
    assert!(matches!(nonce("AAAAA").get_nonce_bytes(), Err(Base64Error::InvalidLength(_))));
    assert!(matches!(nonce("AB").get_nonce_bytes(), Err(Base64Error::InvalidLastSymbol(1, b'B'))));
    assert!(matches!(nonce("AA==").get_nonce_bytes(), Err(Base64Error::InvalidPadding)));
    assert!(matches!(nonce("AAAA").get_cipher_value_bytes(), Ok(v) if v.is_empty()));
}
