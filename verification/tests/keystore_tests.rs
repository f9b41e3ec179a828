use base64::Engine as _;
use rsweb_auth::ed25519::KeyStore;
use rsweb_auth::errors::CryptoError;

fn fixed_store() -> KeyStore {
    let seed = [7u8; 32];
    KeyStore::from_seed(&seed).unwrap()
}

#[test]
fn test_sign_message() {
    let store = fixed_store();
    let message = b"Hello, world!";
    let signature = store.sign(message);
    assert!(!signature.is_empty());
    assert_eq!(signature.len(), 64);
}

#[test]
fn test_verify_signature() {
    let store = fixed_store();
    let message = b"Hello, world!";
    let signature = store.sign(message);
    assert!(store.verify(message, &signature));
}

#[test]
fn test_get_public_key_base64() {
    let store = fixed_store();
    let vk_base64 = store.get_public_key_base64();
    assert!(!vk_base64.is_empty());
    assert_eq!(vk_base64.len(), 43);
    // the encoding really is url-safe unpadded base64 of the public key
    let decoded = base64::engine::general_purpose::URL_SAFE_NO_PAD
        .decode(&vk_base64)
        .unwrap();
    assert_eq!(&decoded, store.public_key());
}

#[test]
fn test_verify_rejects_wrong_message() {
    let store = fixed_store();
    let signature = store.sign(b"one message");
    assert!(!store.verify(b"another message", &signature));
}

#[test]
fn test_round_trip_through_persistence() {
    let store = fixed_store();
    let reloaded = KeyStore::from_secret_key(store.secret_key().clone()).unwrap();
    assert_eq!(reloaded.public_key(), store.public_key());
    let signature = reloaded.sign(b"persisted");
    assert!(store.verify(b"persisted", &signature));
}

#[test]
fn test_bad_key_material_lengths() {
    match KeyStore::from_secret_key(vec![0u8; 63]) {
        Err(CryptoError::IncongruentLength(64, 63)) => {}
        _ => panic!("expected a length error"),
    }
    match KeyStore::from_seed(&[0u8; 16]) {
        Err(CryptoError::IncongruentLength(32, 16)) => {}
        _ => panic!("expected a length error"),
    }
}

#[test]
fn test_corrupt_persisted_key_is_rejected() {
    // a key file whose trailing half does not match its seed never
    // becomes a store whose signatures could not verify
    let store = fixed_store();
    let mut corrupted = store.secret_key().clone();
    corrupted[40] ^= 0xff;
    match KeyStore::from_secret_key(corrupted) {
        Err(CryptoError::ExtractPubkeyError(_)) => {}
        _ => panic!("expected the mismatched halves to be rejected"),
    }
}

#[test]
fn test_is_well_formed_detects_tampering() {
    let mut store = fixed_store();
    assert!(store.is_well_formed());
    store.public_key[0] ^= 1;
    assert!(!store.is_well_formed());
}

#[test]
fn test_try_sign_decides_empty_message() {
    let store = fixed_store();
    assert!(store.try_sign(b"").is_none());
    let sig = store.try_sign(b"payload").unwrap();
    assert!(store.verify(b"payload", &sig));
}
