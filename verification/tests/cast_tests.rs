use rsweb_auth::cast::{buffer_to_hex, vec_to_array_32, vec_to_array_64};
use rsweb_auth::errors::CryptoError;

#[test]
fn test_vec_to_array_32() {
    let vec = vec![0u8; 32];
    let array = vec_to_array_32(vec).unwrap();
    assert_eq!(array.len(), 32);
}

#[test]
fn test_vec_to_array_64() {
    let vec = vec![0u8; 64];
    let array = vec_to_array_64(vec).unwrap();
    assert_eq!(array.len(), 64);
}

#[test]
fn test_buffer_to_hex() {
    let buffer = vec![0u8, 1, 2, 3, 4, 5, 6, 7, 8, 9];
    let hex = buffer_to_hex(&buffer);
    assert_eq!(hex, "00010203040506070809");
}

#[test]
fn test_vec_to_array_32_wrong_length() {
    let vec = vec![0u8; 31];
    match vec_to_array_32(vec) {
        Err(CryptoError::IncongruentLength(expected, actual)) => {
            assert_eq!(expected, 32);
            assert_eq!(actual, 31);
        }
        _ => panic!("expected a length error"),
    }
}

#[test]
fn test_vec_to_array_64_wrong_length() {
    let vec = vec![0u8; 65];
    match vec_to_array_64(vec) {
        Err(CryptoError::IncongruentLength(expected, actual)) => {
            assert_eq!(expected, 64);
            assert_eq!(actual, 65);
        }
        _ => panic!("expected a length error"),
    }
}

#[test]
fn test_buffer_to_hex_all_nibbles() {
    let buffer = vec![0xabu8, 0xcd, 0xef, 0x10];
    assert_eq!(buffer_to_hex(&buffer), "abcdef10");
}
