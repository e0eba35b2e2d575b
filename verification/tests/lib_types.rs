use keys::api_key::ApiKey;
use keys::encoding::{sha256_bytes, Base64SliceError};
use keys::key_value::KeyValue;

fn counting_key() -> ApiKey {
    let mut bytes = [0u8; 32];
    for (i, b) in bytes.iter_mut().enumerate() {
        *b = i as u8;
    }
    ApiKey::from_bytes(bytes)
}

#[test]
fn key_value_holds_key_and_value() {
    let kv = KeyValue::new("DATABASE_URL".to_string(), Some("sqlite://keys.db".to_string()));
    assert_eq!(kv.get_key(), "DATABASE_URL");
    assert_eq!(kv.get_value(), Some("sqlite://keys.db"));
}

#[test]
fn key_value_without_value() {
    let kv = KeyValue::new("MISSING".to_string(), None);
    assert_eq!(kv.get_key(), "MISSING");
    assert_eq!(kv.get_value(), None);
}

#[test]
fn zero_key_in_url_safe_base64() {
    let key = ApiKey::from_bytes([0u8; 32]);
    assert_eq!(key.to_base64(), "AAAAAAAAAAAAAAAAAAAAAAAAAAAAAAAAAAAAAAAAAAA=");
}

#[test]
fn counting_key_in_url_safe_base64() {
    assert_eq!(counting_key().to_base64(), "AAECAwQFBgcICQoLDA0ODxAREhMUFRYXGBkaGxwdHh8=");
}

#[test]
fn url_safe_alphabet_is_used() {
    let mut bytes = [0u8; 32];
    for i in 0..32 {
        bytes[i] = if i % 2 == 0 { 0xfb } else { 0xff };
    }
    assert_eq!(
        ApiKey::from_bytes(bytes).to_base64(),
        "-__7__v_-__7__v_-__7__v_-__7__v_-__7__v_-_8="
    );
}

#[test]
fn from_base64_reads_back_to_base64() {
    let key = counting_key();
    let text = key.to_base64();
    let back = ApiKey::from_base64(&text).unwrap();
    assert_eq!(back.to_base64(), text);
    assert_eq!(back.hash(), key.hash());
}

#[test]
fn from_base64_pads_short_keys_with_zeros() {
    let key = ApiKey::from_base64("AQ==").unwrap();
    let mut expected = [0u8; 32];
    expected[0] = 1;
    assert_eq!(key.to_base64(), ApiKey::from_bytes(expected).to_base64());
}

#[test]
fn from_base64_refuses_long_keys() {
    let text = "AAAAAAAAAAAAAAAAAAAAAAAAAAAAAAAAAAAAAAAAAAAAAAAAAAAAAAAAAAAAAAAA";
    assert!(matches!(ApiKey::from_base64(text), Err(Base64SliceError::OutputSliceTooSmall)));
}

#[test]
fn from_base64_refuses_invalid_text() {
    assert!(matches!(ApiKey::from_base64("!!!!"), Err(Base64SliceError::Invalid(_))));
    assert!(ApiKey::from_base64("AAAAAAAAAAAAAAAAAAAAAAAAAAAAAAAAAAAAAAAAAAA").is_err());
}

#[test]
fn from_base64_refuses_standard_alphabet() {
    assert!(ApiKey::from_base64("+/8=").is_err());
}

#[test]
fn hash_is_sha256_of_key() {
    let digest = ApiKey::from_bytes([0u8; 32]).hash();
    let hex: String = digest.iter().map(|b| format!("{:02x}", b)).collect();
    assert_eq!(hex, "66687aadf862bd776c8fc18b8e9f8e20089714856ee233b3902a591d0d5f2925");
    assert_eq!(digest.len(), 32);
}

#[test]
fn hash_base64_is_unpadded_standard_base64_of_digest() {
    assert_eq!(
        ApiKey::from_bytes([0u8; 32]).hash_base64(),
        "Zmh6rfhivXdsj8GLjp+OIAiXFIVu4jOzkCpZHQ1fKSU"
    );
    assert_eq!(counting_key().hash_base64(), "Yw3NKWbEM2aRElRIu7JbT/QSpJxzLbLIq8G4WBvXEN0");
}

#[test]
fn sha256_bytes_of_empty_input() {
    let hex: String = sha256_bytes(&[]).iter().map(|b| format!("{:02x}", b)).collect();
    assert_eq!(hex, "e3b0c44298fc1c149afbf4c8996fb92427ae41e4649b934ca495991b7852b855");
}

#[test]
fn random_keys_differ() {
    let a = ApiKey::random();
    let b = ApiKey::random();
    assert_ne!(a.to_base64(), b.to_base64());
    assert_eq!(ApiKey::from_base64(&a.to_base64()).unwrap().to_base64(), a.to_base64());
}
