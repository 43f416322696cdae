use aes::cipher::{block_padding::Pkcs7, BlockEncryptMut, KeyIvInit};

use get_cookie::chrome;
use get_cookie::chrome::decrypt_osx::derive_key;
use get_cookie::cookie::{CookieValue, Timestamp};
use get_cookie::errors::GetCookieError;
use get_cookie::store::{CookieRow, MemoryCookieStore, MemorySecretStore, SecretStore};
use get_cookie::{cookie_text, get_cookie};

struct BrokenSecretStore;

impl SecretStore for BrokenSecretStore {
    fn get_secret(&self, _service: &str, _account: &str) -> Result<Vec<u8>, GetCookieError> {
        Err(GetCookieError::SecretNotFound)
    }
}

fn sealed_envelope(secret: &[u8], plaintext: &[u8]) -> Vec<u8> {
    let key = derive_key(secret);
    let iv = [0x20u8; 16];
    let ciphertext = cbc::Encryptor::<aes::Aes128Enc>::new((&key).into(), &iv.into())
        .encrypt_padded_vec_mut::<Pkcs7>(plaintext);
    let mut envelope = vec![0x76u8, 0x31, 0x30];
    envelope.extend_from_slice(&ciphertext);
    envelope
}

fn session_row(secret: &[u8]) -> CookieRow {
    CookieRow {
        host_key: ".example.com".to_string(),
        expires_utc: 0,
        last_access_utc: 13259030400000000,
        encrypted_value: sealed_envelope(secret, b"session=abc123"),
    }
}

#[test]
fn end_to_end_decrypts_the_stored_cookie() {
    let store = MemoryCookieStore::with_row(Some(session_row(b"test-secret")));
    let secrets = MemorySecretStore::new(b"test-secret".to_vec());
    let got = get_cookie(&store, &secrets, ".example.com", "session");
    assert_eq!(got, Ok("session=abc123".to_string()));
}

#[test]
fn full_record_carries_converted_timestamps() {
    let store = MemoryCookieStore::with_row(Some(session_row(b"test-secret")));
    let secrets = MemorySecretStore::new(b"test-secret".to_vec());
    let cookie = chrome::get_cookie(&store, &secrets, ".example.com", "session").unwrap();
    assert_eq!(cookie.name, "session");
    assert_eq!(cookie.domain, ".example.com");
    assert_eq!(cookie.expires, None);
    assert_eq!(cookie.last_access, Some(Timestamp { secs: 1614556800, micros: 0 }));
    assert!(matches!(cookie.value, CookieValue::Text(ref t) if t == "session=abc123"));
}

#[test]
fn encrypted_record_keeps_its_envelope_before_decryption() {
    let row = session_row(b"test-secret");
    let envelope = row.encrypted_value.clone();
    let store = MemoryCookieStore::with_row(Some(row));
    let cookie = chrome::get_encrypted_cookie(&store, ".example.com", "session").unwrap();
    assert!(matches!(cookie.value, CookieValue::Encrypted(ref e) if *e == envelope));
}

#[test]
fn zero_matching_rows_is_cookie_not_found() {
    let store = MemoryCookieStore::with_row(None);
    let secrets = MemorySecretStore::new(b"test-secret".to_vec());
    let got = get_cookie(&store, &secrets, ".example.com", "session");
    assert_eq!(got, Err(GetCookieError::CookieNotFound));
}

#[test]
fn missing_store_file_is_store_not_found() {
    let store = MemoryCookieStore::failing(GetCookieError::StoreNotFound);
    let secrets = MemorySecretStore::new(b"test-secret".to_vec());
    let got = get_cookie(&store, &secrets, ".example.com", "session");
    assert_eq!(got, Err(GetCookieError::StoreNotFound));
}

#[test]
fn engine_failure_propagates_unchanged() {
    let store = MemoryCookieStore::failing(GetCookieError::StoreIOError);
    let secrets = MemorySecretStore::new(b"test-secret".to_vec());
    let got = get_cookie(&store, &secrets, ".example.com", "session");
    assert_eq!(got, Err(GetCookieError::StoreIOError));
}

#[test]
fn missing_secret_propagates_unchanged() {
    let store = MemoryCookieStore::with_row(Some(session_row(b"test-secret")));
    let got = get_cookie(&store, &BrokenSecretStore, ".example.com", "session");
    assert_eq!(got, Err(GetCookieError::SecretNotFound));
}

#[test]
fn wrong_secret_is_a_decryption_error() {
    let store = MemoryCookieStore::with_row(Some(session_row(b"test-secret")));
    let secrets = MemorySecretStore::new(b"other-secret".to_vec());
    let got = get_cookie(&store, &secrets, ".example.com", "session");
    assert_eq!(got, Err(GetCookieError::DecryptionError));
}

#[test]
fn cookie_text_unwraps_only_plaintext() {
    assert_eq!(
        cookie_text(CookieValue::Text("session=abc123".to_string())),
        Ok("session=abc123".to_string())
    );
    assert_eq!(
        cookie_text(CookieValue::Encrypted(vec![0x76, 0x31, 0x30])),
        Err(GetCookieError::DecryptionError)
    );
}

struct UnavailableSecretStore;

impl SecretStore for UnavailableSecretStore {
    fn get_secret(&self, _service: &str, _account: &str) -> Result<Vec<u8>, GetCookieError> {
        Err(GetCookieError::SecretBackendError)
    }
}

#[test]
fn backend_failure_propagates_unchanged() {
    let store = MemoryCookieStore::with_row(Some(session_row(b"test-secret")));
    let got = get_cookie(&store, &UnavailableSecretStore, ".example.com", "session");
    assert_eq!(got, Err(GetCookieError::SecretBackendError));
}
