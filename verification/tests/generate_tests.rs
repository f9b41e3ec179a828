use rsweb_auth::generate::{
    generate_id, generate_name, generate_nonce, generate_random_string, generate_salt,
};

#[test]
fn test_generate_nonce() {
    let nonce = generate_nonce();
    assert_eq!(nonce.len(), 8);
}

#[test]
fn test_generate_id() {
    let id = generate_id();
    assert_eq!(id.len(), 32);
}

#[test]
fn test_generate_name() {
    let name = generate_name();
    assert_eq!(name.len(), 6);
}

#[test]
fn test_generate_random_string() {
    let n = 10;
    let random_string = generate_random_string(n);
    assert_eq!(random_string.len(), n);
}

#[test]
fn test_generate_salt() {
    let salt = generate_salt();
    assert_eq!(salt.len(), 32);
}

#[test]
fn test_generate_nonce_is_hex() {
    let nonce = generate_nonce();
    assert!(nonce.chars().all(|c| c.is_ascii_hexdigit()));
}

#[test]
fn test_generate_random_string_is_alphanumeric() {
    let s = generate_random_string(64);
    assert_eq!(s.len(), 64);
    assert!(s.chars().all(|c| c.is_ascii_alphanumeric()));
}
