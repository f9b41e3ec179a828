use base64::Engine as _;
use rsa::traits::PublicKeyParts as _;
use rsweb_auth::errors::GoogleError;
use rsweb_auth::jwk::{JsonWebKey, JsonWebKeySet};
use rsweb_auth::key_provider::{CacheLookup, GoogleKeyProvider};
use rsweb_auth::structure::Algorithm;
use rsweb_auth::unverified_token::UnverifiedToken;

fn b64(s: &str) -> String {
    base64::engine::general_purpose::URL_SAFE_NO_PAD.encode(s.as_bytes())
}

fn make_token(payload_json: &str) -> String {
    let header = b64("{\"kid\": \"key-1\", \"alg\": \"RS256\", \"typ\": \"JWT\"}");
    let payload = b64(payload_json);
    let signature =
        base64::engine::general_purpose::URL_SAFE_NO_PAD.encode([1u8, 2, 3, 4].as_slice());
    format!("{}.{}.{}", header, payload, signature)
}

fn good_payload() -> String {
    let mut s = String::new();
    s.push_str("{\"iss\": \"https://accounts.google.com\", \"sub\": \"subject-9\", ");
    s.push_str("\"aud\": \"client-1\", \"azp\": \"client-1\", \"iat\": 100, \"exp\": 200, ");
    s.push_str("\"email\": \"x@y.z\", \"email_verified\": true, \"name\": \"Xan\", ");
    s.push_str("\"locale\": null}");
    s
}

#[test]
fn validates_well_formed_token() {
    let token = make_token(&good_payload());
    let t = UnverifiedToken::validate_at(&token, true, "client-1", 150).unwrap();
    assert_eq!(t.header.key_id, "key-1");
    assert_eq!(t.claims.issuer, "https://accounts.google.com");
    assert_eq!(t.claims.subject, "subject-9");
    assert_eq!(t.claims.audience, "client-1");
    assert_eq!(t.claims.android_audience, "client-1");
    assert_eq!(t.claims.issued_at, 100);
    assert_eq!(t.claims.expires_at, 200);
    assert_eq!(t.json_payload.email.as_deref(), Some("x@y.z"));
    assert_eq!(t.json_payload.email_verified, Some(true));
    assert_eq!(t.json_payload.name, "Xan");
    assert_eq!(t.json_payload.picture, "");
    assert_eq!(t.json_payload.locale, None);
    assert_eq!(t.json_payload.domain, None);
    // the signed body is the original encoded header and payload
    let dot = token.rfind('.').unwrap();
    assert_eq!(t.signed_body, &token[..dot]);
    assert_eq!(t.signature, vec![1u8, 2, 3, 4]);
}

#[test]
fn malformed_structure_is_rejected() {
    for bad in ["", "onlyone", "two.parts", "a.b.c.d", "..sig", "a..c", "a.b."] {
        let r = UnverifiedToken::validate_at(bad, true, "client-1", 150);
        assert!(
            matches!(r, Err(GoogleError::InvalidToken("malformed structure"))),
            "{:?}",
            bad
        );
    }
}

#[test]
fn bad_base64_is_a_decode_error() {
    let r = UnverifiedToken::validate_at("a!.b.c", true, "client-1", 150);
    assert!(matches!(r, Err(GoogleError::InvalidToken("decode error"))));
}

#[test]
fn header_without_kid_is_a_header_error() {
    let token = format!("{}.{}.{}", b64("{}"), b64(&good_payload()), b64("sig"));
    let r = UnverifiedToken::validate_at(&token, true, "client-1", 150);
    assert!(matches!(r, Err(GoogleError::SerdeError(_))));
}

#[test]
fn payload_missing_claims_is_a_payload_error() {
    let token = make_token("{\"iss\": 5}");
    let r = UnverifiedToken::validate_at(&token, true, "client-1", 150);
    assert!(matches!(r, Err(GoogleError::SerdeError(_))));
}

#[test]
fn wrong_audience_rejected_before_any_key_work() {
    // the provider is never consulted: validation fails on the audience
    // check alone, with no key source in sight
    let provider = GoogleKeyProvider::empty();
    let token = make_token(&good_payload());
    let r = UnverifiedToken::validate_at(&token, true, "other-client", 150);
    assert!(matches!(
        r,
        Err(GoogleError::InvalidToken("invalid audience"))
    ));
    // even a stale token reports the audience first: no expiry, no key
    let r = UnverifiedToken::validate_at(&token, true, "other-client", 5_000);
    assert!(matches!(
        r,
        Err(GoogleError::InvalidToken("invalid audience"))
    ));
    assert!(provider.cached.is_none());
}

#[test]
fn wrong_issuer_is_rejected() {
    let payload = good_payload().replace("https://accounts.google.com", "https://evil.example");
    let r = UnverifiedToken::validate_at(&make_token(&payload), true, "client-1", 150);
    assert!(matches!(r, Err(GoogleError::InvalidToken("invalid issuer"))));
}

#[test]
fn bare_issuer_is_accepted() {
    let payload = good_payload().replace("https://accounts.google.com", "accounts.google.com");
    let t = UnverifiedToken::validate_at(&make_token(&payload), true, "client-1", 150).unwrap();
    assert_eq!(t.claims.issuer, "accounts.google.com");
}

#[test]
fn stale_token_is_expired_unless_check_disabled() {
    let token = make_token(&good_payload());
    let r = UnverifiedToken::validate_at(&token, true, "client-1", 250);
    assert!(matches!(r, Err(GoogleError::Expired)));
    let t = UnverifiedToken::validate_at(&token, false, "client-1", 250).unwrap();
    assert_eq!(t.claims.expires_at, 200);
}

#[test]
fn inverted_timestamps_rejected_even_when_otherwise_valid() {
    let payload = good_payload()
        .replace("\"iat\": 100", "\"iat\": 300")
        .replace("\"exp\": 200", "\"exp\": 250");
    let r = UnverifiedToken::validate_at(&make_token(&payload), true, "client-1", 150);
    assert!(matches!(
        r,
        Err(GoogleError::InvalidToken("invalid expires at"))
    ));
}

#[test]
fn verify_with_key_outcomes() {
    let token = make_token(&good_payload());
    let t = UnverifiedToken::validate_at(&token, true, "client-1", 150).unwrap();
    let r = t.verify_with_key(Ok(None));
    assert!(matches!(r, Err(GoogleError::InvalidToken("missing key"))));

    let t = UnverifiedToken::validate_at(&token, true, "client-1", 150).unwrap();
    let r = t.verify_with_key(Err(()));
    assert!(matches!(r, Err(GoogleError::RetrieveKeyFailure)));

    // an RS256 key whose material does not accept this signature is a
    // cryptographic mismatch, distinct from every structural kind
    let t = UnverifiedToken::validate_at(&token, true, "client-1", 150).unwrap();
    let key = JsonWebKey {
        key_id: "key-1".to_string(),
        algorithm: Algorithm::RS256,
        modulus: vec![1, 2, 3],
        exponent: vec![1, 0, 1],
    };
    let r = t.verify_with_key(Ok(Some(key)));
    assert!(matches!(r, Err(GoogleError::SignatureMismatch)));

    // an algorithm with no handler reports itself as unsupported
    let t = UnverifiedToken::validate_at(&token, true, "client-1", 150).unwrap();
    let key = JsonWebKey {
        key_id: "key-1".to_string(),
        algorithm: Algorithm::ES256,
        modulus: vec![1, 2, 3],
        exponent: vec![1, 0, 1],
    };
    let r = t.verify_with_key(Ok(Some(key)));
    assert!(matches!(
        r,
        Err(GoogleError::UnsupportedAlgorithm(Algorithm::ES256))
    ));
}

#[test]
fn rs256_signed_token_verifies_end_to_end() {
    let mut rng = rand::thread_rng();
    let private_key = rsa::RsaPrivateKey::new(&mut rng, 1024).unwrap();
    let public_key = private_key.to_public_key();

    let header = b64("{\"kid\": \"rsa-1\", \"alg\": \"RS256\"}");
    let payload = b64(&good_payload());
    let signed_body = format!("{}.{}", header, payload);
    let signing_key = rsa::pkcs1v15::SigningKey::<sha2::Sha256>::new(private_key);
    let sig = rsa::signature::Signer::sign(&signing_key, signed_body.as_bytes());
    let sig_bytes = rsa::signature::SignatureEncoding::to_vec(&sig);
    let token = format!(
        "{}.{}",
        signed_body,
        base64::engine::general_purpose::URL_SAFE_NO_PAD.encode(&sig_bytes)
    );

    let key = JsonWebKey {
        key_id: "rsa-1".to_string(),
        algorithm: Algorithm::RS256,
        modulus: public_key.n().to_bytes_be(),
        exponent: public_key.e().to_bytes_be(),
    };

    let t = UnverifiedToken::validate_at(&token, true, "client-1", 150).unwrap();
    let verified = t.verify_with_key(Ok(Some(key.clone()))).unwrap();
    assert_eq!(verified.claims.subject, "subject-9");
    assert_eq!(verified.claims.audience, "client-1");
    assert_eq!(verified.payload.email.as_deref(), Some("x@y.z"));

    // the same token with one flipped signature bit is rejected as a
    // cryptographic mismatch
    let mut tampered = sig_bytes.clone();
    tampered[0] ^= 1;
    let bad_token = format!(
        "{}.{}",
        signed_body,
        base64::engine::general_purpose::URL_SAFE_NO_PAD.encode(&tampered)
    );
    let t = UnverifiedToken::validate_at(&bad_token, true, "client-1", 150).unwrap();
    let r = t.verify_with_key(Ok(Some(key)));
    assert!(matches!(r, Err(GoogleError::SignatureMismatch)));
}

fn keys_body() -> String {
    let mut s = String::new();
    s.push_str("{\n  \"keys\": [\n");
    s.push_str("    {\n      \"kty\": \"RSA\",\n      \"use\": \"sig\",\n");
    s.push_str("      \"kid\": \"k1\",\n      \"alg\": \"RS256\",\n");
    s.push_str("      \"n\": \"AQAB\",\n      \"e\": \"AQAB\"\n    },\n");
    s.push_str("    {\"kid\": \"k2\", \"alg\": \"ES256\", \"n\": \"AAEC\", \"e\": \"AQ\"}\n");
    s.push_str("  ]\n}");
    s
}

#[test]
fn key_set_parses_and_looks_up() {
    let set = JsonWebKeySet::from_json_text(&keys_body()).unwrap();
    assert_eq!(set.keys.len(), 2);
    let k = set.get_key("k1").unwrap();
    assert_eq!(k.key_id, "k1");
    assert_eq!(k.algorithm, Algorithm::RS256);
    // "AQAB" decodes to the usual public exponent bytes
    assert_eq!(k.modulus, vec![1, 0, 1]);
    let k2 = set.get_key("k2").unwrap();
    assert_eq!(k2.algorithm, Algorithm::ES256);
    assert!(set.get_key("k3").is_none());
}

#[test]
fn key_set_rejects_malformed_material() {
    // an unknown algorithm name spoils the whole set
    let body = keys_body().replace("ES256", "XX999");
    assert!(JsonWebKeySet::from_json_text(&body).is_none());
    // base64-invalid modulus material is a decode failure, not a key
    let body = keys_body().replace("\"AAEC\"", "\"!!\"");
    assert!(JsonWebKeySet::from_json_text(&body).is_none());
    assert!(JsonWebKeySet::from_json_text("not even json").is_none());
}

#[test]
fn cache_with_max_age_serves_until_expiry() {
    let mut p = GoogleKeyProvider::empty();
    assert!(matches!(p.lookup("k1", 1000), CacheLookup::Fetch));

    let set = p.process_response(&keys_body(), Some(300), 1000).unwrap();
    assert!(set.get_key("k1").is_some());

    // within the 300 s lifetime every lookup is served from the cache
    match p.lookup("k1", 1250) {
        CacheLookup::Hit(Some(k)) => assert_eq!(k.key_id, "k1"),
        _ => panic!("expected a cache hit"),
    }
    match p.lookup("k1", 1299) {
        CacheLookup::Hit(Some(_)) => {}
        _ => panic!("expected a cache hit"),
    }
    // a miss within a fresh cache is a miss, not a refetch
    match p.lookup("unknown", 1250) {
        CacheLookup::Hit(None) => {}
        _ => panic!("expected a hit reporting no such key"),
    }
    // after the lifetime has passed, exactly the next lookup fetches anew
    assert!(matches!(p.lookup("k1", 1300), CacheLookup::Fetch));
    let _ = p.process_response(&keys_body(), Some(300), 1300).unwrap();
    assert!(matches!(p.lookup("k1", 1400), CacheLookup::Hit(Some(_))));
}

#[test]
fn cache_without_hint_refetches_every_time() {
    let mut p = GoogleKeyProvider::empty();
    let set = p.process_response(&keys_body(), None, 1000).unwrap();
    // the fetched set serves this call only
    assert!(set.get_key("k1").is_some());
    // nothing was cached: every subsequent lookup demands a fetch again
    assert!(matches!(p.lookup("k1", 1000), CacheLookup::Fetch));
    assert!(matches!(p.lookup("k1", 1001), CacheLookup::Fetch));
    let _ = p.process_response(&keys_body(), None, 1001).unwrap();
    assert!(matches!(p.lookup("k1", 1002), CacheLookup::Fetch));
}

#[test]
fn cache_untouched_by_unparsable_response() {
    let mut p = GoogleKeyProvider::empty();
    assert!(p.process_response("garbage", Some(300), 1000).is_err());
    assert!(p.cached.is_none());
    assert!(matches!(p.lookup("k1", 1000), CacheLookup::Fetch));
}

#[test]
fn fractional_timestamps_are_rejected() {
    let payload = good_payload().replace("\"iat\": 100", "\"iat\": 100.5");
    let r = UnverifiedToken::validate_at(&make_token(&payload), true, "client-1", 150);
    assert!(matches!(r, Err(GoogleError::SerdeError(_))));
}
