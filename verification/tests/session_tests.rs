use base64::Engine as _;
use rsweb_auth::claims::{verify_session_token, Claims, SessionDecision};
use rsweb_auth::ed25519::KeyStore;
use rsweb_auth::errors::AuthError;
use rsweb_auth::refresh_tokens::mint_pair;
use rsweb_auth::user::UserEssentials;

const T: i64 = 1_000_000;

fn store() -> KeyStore {
    KeyStore::from_seed(&[9u8; 32]).unwrap()
}

fn sample_claims() -> Claims {
    Claims {
        uid: 42,
        email: "a@b.com".to_string(),
        username: "ab".to_string(),
        role: "user".to_string(),
        agency_id: None,
    }
}

fn assert_claims_eq(a: &Claims, b: &Claims) {
    assert_eq!(a.uid, b.uid);
    assert_eq!(a.email, b.email);
    assert_eq!(a.username, b.username);
    assert_eq!(a.role, b.role);
    assert_eq!(a.agency_id, b.agency_id);
}

#[test]
fn round_trip_within_ttl() {
    let ks = store();
    let claims = sample_claims();
    let token = claims.create_token(&ks, T);
    let (got, expired) = verify_session_token(&token, &ks, T + 1).unwrap();
    assert!(!expired);
    assert_claims_eq(&got, &claims);
}

#[test]
fn round_trip_with_agency_and_escapes() {
    let ks = store();
    let claims = Claims {
        uid: -7,
        email: "we\"ird\\name\n@b.com".to_string(),
        username: "tab\there".to_string(),
        role: "agency".to_string(),
        agency_id: Some(3),
    };
    let token = claims.create_token(&ks, T);
    let (got, expired) = verify_session_token(&token, &ks, T).unwrap();
    assert!(!expired);
    assert_claims_eq(&got, &claims);
    assert!(got.has_creator_privilege());
}

#[test]
fn scenario_ttl_boundary() {
    // issued at T with a 7200 s lifetime: alive at T+7199, expired at T+7201
    let ks = store();
    let claims = sample_claims();
    let token = claims.create_token(&ks, T);

    let (got, expired) = verify_session_token(&token, &ks, T + 7199).unwrap();
    assert!(!expired);
    assert_claims_eq(&got, &claims);

    let (_, expired) = verify_session_token(&token, &ks, T + 7201).unwrap();
    assert!(expired);

    let r = Claims::try_from_tokens(&Some(token), &None, &ks, T + 7201);
    assert!(matches!(r, Err(AuthError::TokenExpired)));
}

#[test]
fn established_session_has_no_rotation() {
    let ks = store();
    let claims = sample_claims();
    let token = claims.create_token(&ks, T);
    match Claims::try_from_tokens(&Some(token), &Some("cred".to_string()), &ks, T + 10) {
        Ok(SessionDecision::Established(got)) => assert_claims_eq(&got, &claims),
        _ => panic!("expected an established session"),
    }
}

#[test]
fn digest_bit_flips_are_cryptographic_failures() {
    let ks = store();
    let claims = sample_claims();
    let token = claims.create_token(&ks, T);
    let engine = base64::engine::general_purpose::URL_SAFE_NO_PAD;
    let json = String::from_utf8(engine.decode(&token).unwrap()).unwrap();
    let marker = ",\"d\":\"";
    let pos = json.rfind(marker).unwrap() + marker.len();
    let end = json.len() - 2;
    assert_eq!(&json[end..], "\"}");
    let sig = engine.decode(&json[pos..end]).unwrap();
    assert_eq!(sig.len(), 64);
    // one flipped bit in every byte, and every bit of the first and last
    // bytes of the digest
    let mut flips: Vec<usize> = (0..64).map(|byte| byte * 8 + byte % 8).collect();
    flips.extend(0..8);
    flips.extend(504..512);
    for bit in flips {
        let mut tampered = sig.clone();
        tampered[bit / 8] ^= 1u8 << (bit % 8);
        let tampered_b64 = engine.encode(&tampered);
        let new_json = format!("{}{}{}", &json[..pos], tampered_b64, &json[end..]);
        let new_token = engine.encode(new_json.as_bytes());
        // even on an expired clock the tampered digest must be reported as
        // cryptographic, never structural or temporal
        let r = verify_session_token(&new_token, &ks, T + 100_000);
        assert!(matches!(r, Err(AuthError::InvalidSignature)), "bit {}", bit);
    }
}

#[test]
fn wrong_key_rejects_signature() {
    let ks = store();
    let other = KeyStore::from_seed(&[1u8; 32]).unwrap();
    let token = sample_claims().create_token(&ks, T);
    let r = verify_session_token(&token, &other, T);
    assert!(matches!(r, Err(AuthError::InvalidSignature)));
}

#[test]
fn error_kinds_for_bad_inputs() {
    let ks = store();
    // absent token
    let r = Claims::try_from_tokens(&None, &None, &ks, T);
    assert!(matches!(r, Err(AuthError::InvalidToken)));
    // not base64url
    let r = verify_session_token("!!!not-base64!!!", &ks, T);
    assert!(matches!(r, Err(AuthError::DecodeError)));
    // base64url of something that is not the canonical envelope
    let engine = base64::engine::general_purpose::URL_SAFE_NO_PAD;
    let r = verify_session_token(&engine.encode(b"surprise"), &ks, T);
    assert!(matches!(r, Err(AuthError::JsonError)));
}

#[test]
fn canonical_envelope_is_real_json() {
    let ks = store();
    let claims = Claims {
        uid: 42,
        email: "quote\"back\\slash@b.com".to_string(),
        username: "ab".to_string(),
        role: "user".to_string(),
        agency_id: Some(11),
    };
    let token = claims.create_token(&ks, T);
    let engine = base64::engine::general_purpose::URL_SAFE_NO_PAD;
    let json = String::from_utf8(engine.decode(&token).unwrap()).unwrap();
    let v: serde_json::Value = serde_json::from_str(&json).unwrap();
    assert_eq!(v["m"]["c"]["uid"], serde_json::Value::from(42));
    assert_eq!(v["m"]["c"]["e"].as_str().unwrap(), "quote\"back\\slash@b.com");
    assert_eq!(v["m"]["c"]["n"].as_str().unwrap(), "ab");
    assert_eq!(v["m"]["c"]["r"].as_str().unwrap(), "user");
    assert_eq!(v["m"]["c"]["a"], serde_json::Value::from(11));
    assert_eq!(v["m"]["exp"], serde_json::Value::from(T + 7200));
    assert_eq!(v["m"]["n"].as_str().unwrap().len(), 8);
    assert!(v["d"].as_str().is_some());
}

#[test]
fn nonces_differ_between_issuances() {
    let ks = store();
    let claims = sample_claims();
    let t1 = claims.create_token(&ks, T);
    let t2 = claims.create_token(&ks, T);
    assert_ne!(t1, t2);
}

#[test]
fn rotation_scenario() {
    let ks = store();
    let now_expired = T + 10_000;

    // the external store: one refresh credential bound to user 42
    let mut credentials: Vec<(String, i32)> = vec![("r1".to_string(), 42)];
    let essentials = UserEssentials {
        id: 42,
        email: "a@b.com".to_string(),
        handle: "ab".to_string(),
        role: "user".to_string(),
    };

    let stale_token = sample_claims().create_token(&ks, T);
    let refresh = Some("r1".to_string());
    let cred = match Claims::try_from_tokens(&Some(stale_token), &refresh, &ks, now_expired) {
        Ok(SessionDecision::Rotate(_stale, cred)) => cred,
        _ => panic!("expected a rotation demand"),
    };
    assert_eq!(cred, "r1");

    // the caller performs the store half of the rotation
    let found = credentials.iter().position(|(c, _)| *c == cred).unwrap();
    assert_eq!(credentials[found].1, essentials.id);
    let (new_token, new_cred) = mint_pair(&essentials, &ks, now_expired);
    credentials.remove(found);
    credentials.push((new_cred.clone(), essentials.id));

    // the fresh pair works and carries the store's current claims
    let (got, expired) = verify_session_token(&new_token, &ks, now_expired + 1).unwrap();
    assert!(!expired);
    assert_eq!(got.uid, 42);
    assert_eq!(got.email, "a@b.com");
    assert_eq!(got.username, "ab");
    assert_eq!(got.role, "user");
    assert_eq!(new_cred.len(), 32);

    // the consumed credential is gone: a second rotation attempt fails at
    // the store lookup, which the caller reports as an expired token
    assert!(credentials.iter().all(|(c, _)| *c != "r1"));
}

#[test]
fn expired_without_refresh_mutates_nothing() {
    let ks = store();
    let credentials: Vec<(String, i32)> = vec![("r1".to_string(), 42)];
    let stale_token = sample_claims().create_token(&ks, T);
    let r = Claims::try_from_tokens(&Some(stale_token), &None, &ks, T + 10_000);
    assert!(matches!(r, Err(AuthError::TokenExpired)));
    // the decision demanded no store action, so the store stands untouched
    assert_eq!(credentials.len(), 1);
    assert_eq!(credentials[0].0, "r1");
}
