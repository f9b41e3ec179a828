use vstd::prelude::*;

use crate::b64::{b64_decode, b64_decoding, b64_encode};
use crate::ed25519::{ed25519_verifies, KeyStore};
use crate::errors::AuthError;
use crate::generate::generate_nonce;
use crate::session_json::{
    build_meta_into, build_token_chars, lemma_token_roundtrip, meta_json, parse_session_token,
    scan_session_token, token_json,
};
use crate::strutil::{chars_to_string, str_eq, str_to_chars, utf8_to_string};
use crate::user::UserEssentials;
use vstd::utf8::{decode_utf8, encode_scalar, encode_utf8, valid_utf8};

verus! {

/// The claims carried by a first-party session token.
#[derive(Debug, Clone)]
pub struct Claims {
    pub uid: i32,
    pub email: String,
    pub username: String,
    pub role: String,
    pub agency_id: Option<i32>,
}

/// The mathematical shape of a set of session claims.
pub struct ClaimsView {
    pub uid: int,
    pub email: Seq<char>,
    pub username: Seq<char>,
    pub role: Seq<char>,
    pub agency_id: Option<int>,
}

impl View for Claims {
    type V = ClaimsView;

    open spec fn view(&self) -> ClaimsView {
        ClaimsView {
            uid: self.uid as int,
            email: self.email@,
            username: self.username@,
            role: self.role@,
            agency_id: match self.agency_id {
                Some(a) => Some(a as int),
                None => None,
            },
        }
    }
}

/// A verified session: the claims, plus a freshly rotated token pair where
/// verification went through a rotation.
#[derive(Debug)]
pub struct AuthSession {
    pub claims: Claims,
    pub updated_tokens: Option<(String, String)>,
}

/// The session claims that a stored user's essential attributes yield.
pub open spec fn claims_of_essentials(u: UserEssentials) -> ClaimsView {
    ClaimsView {
        uid: u.id as int,
        email: u.email@,
        username: u.handle@,
        role: u.role@,
        agency_id: None,
    }
}

impl Claims {
    /// Builds session claims from a stored user's essential attributes.
    /// No tenant is assigned at this point.
    pub fn from_user_essentials(user_essentials: &UserEssentials) -> (r: Claims)
        ensures
            r@ == claims_of_essentials(*user_essentials),
    {
        Claims {
            uid: user_essentials.id,
            email: user_essentials.email.clone(),
            username: user_essentials.handle.clone(),
            role: user_essentials.role.clone(),
            agency_id: None,
        }
    }

    /// Whether the role may publish content: creators, elevated
    /// administrators and agencies.
    pub fn has_creator_privilege(&self) -> (r: bool)
        ensures
            r == (self@.role == "creator"@ || self@.role == "admin+"@ || self@.role == "agency"@),
    {
        str_eq(self.role.as_str(), "creator") || str_eq(self.role.as_str(), "admin+") || str_eq(
            self.role.as_str(),
            "agency",
        )
    }
}

/// The fixed session lifetime: two hours, in seconds.
pub const SESSION_TTL_SECS: i64 = 7200;

/// What verifying an already-decoded envelope text yields: parse the
/// canonical JSON, decode the digest, check the signature, and only then
/// the expiry, failing fast at each step.
pub open spec fn spec_verify_envelope(chars: Seq<char>, pkey: Seq<u8>, now: int) -> SessionOutcome {
    match parse_session_token(chars) {
        None => SessionOutcome::BadJson,
        Some((c, exp, nonce, digest_b64)) => match b64_decoding(digest_b64) {
            None => SessionOutcome::BadDecode,
            Some(sig) => if !ed25519_verifies(sig, encode_utf8(meta_json(c, exp, nonce)), pkey) {
                SessionOutcome::BadSignature
            } else if exp < now {
                SessionOutcome::Expired(c)
            } else {
                SessionOutcome::Valid(c)
            },
        },
    }
}

/// What verifying a session token text yields, as a function of the token,
/// the service's public key and the current time. Every check is fail-fast:
/// decoding, then the envelope JSON, then the digest, then the signature,
/// and only then the expiry, so a cryptographic failure is never reported
/// as a temporal one.
pub open spec fn spec_verify_session(token: Seq<char>, pkey: Seq<u8>, now: int) -> SessionOutcome {
    match b64_decoding(token) {
        None => SessionOutcome::BadDecode,
        Some(bytes) => if !valid_utf8(bytes) {
            SessionOutcome::BadDecode
        } else {
            spec_verify_envelope(decode_utf8(bytes), pkey, now)
        },
    }
}

/// The possible outcomes of checking one session token text.
pub enum SessionOutcome {
    /// Not base64url, not UTF-8, or a digest that does not decode.
    BadDecode,
    /// Not the canonical envelope JSON.
    BadJson,
    /// The digest does not verify under the service's key.
    BadSignature,
    /// A well-signed, unexpired token carrying these claims.
    Valid(ClaimsView),
    /// A well-signed token carrying these claims whose expiry has passed.
    Expired(ClaimsView),
}

proof fn lemma_encode_utf8_nonempty(chars: Seq<char>)
    requires
        chars.len() > 0,
    ensures
        encode_utf8(chars).len() > 0,
{
    assert(encode_scalar(chars[0] as u32).len() >= 1);
}

impl Claims {
    /// Issues a signed session token: the canonical envelope over these
    /// claims, a fresh random nonce and a two-hour expiry, signed with the
    /// store's key and base64url-encoded.
    ///
    /// The contract is the session round trip: under the issuing key, the
    /// returned text verifies back to exactly these claims at any time up
    /// to the expiry, and reports them expired at any later time — never a
    /// structural or cryptographic failure.
    #[verifier::rlimit(100)]
    #[verifier::spinoff_prover]
    pub fn create_token(&self, key_store: &KeyStore, now: i64) -> (r: String)
        requires
            key_store.wf(),
            now <= i64::MAX - SESSION_TTL_SECS,
        ensures
            forall|t: int|
                #[trigger] spec_verify_session(r@, key_store.public_key@, t) == (if t <= now
                    + SESSION_TTL_SECS {
                    SessionOutcome::Valid(self@)
                } else {
                    SessionOutcome::Expired(self@)
                }),
    {
        let expires = now + SESSION_TTL_SECS;
        let nonce = generate_nonce();
        let mut meta: Vec<char> = Vec::new();
        build_meta_into(&mut meta, self, expires, nonce.as_str());
        let meta_string = chars_to_string(&meta);
        proof {
            reveal_strlit("{\"c\":");
            assert(meta_string@.len() > 0);
            lemma_encode_utf8_nonempty(meta_string@);
        }
        let sig = key_store.sign(meta_string.as_str().as_bytes());
        let digest = b64_encode(sig.as_slice());
        let token_chars = build_token_chars(&meta, digest.as_str());
        let token_string = chars_to_string(&token_chars);
        let encoded = b64_encode(token_string.as_str().as_bytes());
        proof {
            broadcast use vstd::utf8::encode_utf8_valid_utf8, vstd::utf8::encode_utf8_decode_utf8;

            assert(token_chars@ =~= token_json(self@, expires as int, nonce@, digest@));
            lemma_token_roundtrip(self@, expires as int, nonce@, digest@);
        }
        encoded
    }
}

/// Checks one session token text: decodes it, parses the canonical
/// envelope, verifies the digest under the store's key, and reports whether
/// the token has expired. The boolean is `true` exactly on a well-signed
/// but expired token.
pub fn verify_session_token(token: &str, key_store: &KeyStore, now: i64) -> (r: Result<
    (Claims, bool),
    AuthError,
>)
    requires
        key_store.wf(),
    ensures
        match spec_verify_session(token@, key_store.public_key@, now as int) {
            SessionOutcome::BadDecode => r == Result::<(Claims, bool), AuthError>::Err(
                AuthError::DecodeError,
            ),
            SessionOutcome::BadJson => r == Result::<(Claims, bool), AuthError>::Err(
                AuthError::JsonError,
            ),
            SessionOutcome::BadSignature => r == Result::<(Claims, bool), AuthError>::Err(
                AuthError::InvalidSignature,
            ),
            SessionOutcome::Valid(c) => (r matches Ok(p) && p.0@ == c && p.1 == false),
            SessionOutcome::Expired(c) => (r matches Ok(p) && p.0@ == c && p.1 == true),
        },
{
    let bytes = match b64_decode(token) {
        Some(b) => b,
        None => {
            return Err(AuthError::DecodeError);
        },
    };
    let text = match utf8_to_string(bytes) {
        Some(t) => t,
        None => {
            return Err(AuthError::DecodeError);
        },
    };
    let chars = str_to_chars(text.as_str());
    let (claims, exp, nonce, digest_b64) = match scan_session_token(&chars) {
        Some(p) => p,
        None => {
            return Err(AuthError::JsonError);
        },
    };
    let sig = match b64_decode(digest_b64.as_str()) {
        Some(s) => s,
        None => {
            return Err(AuthError::DecodeError);
        },
    };
    let mut meta: Vec<char> = Vec::new();
    build_meta_into(&mut meta, &claims, exp, nonce.as_str());
    let meta_string = chars_to_string(&meta);
    if !key_store.verify(meta_string.as_str().as_bytes(), sig.as_slice()) {
        return Err(AuthError::InvalidSignature);
    }
    Ok((claims, exp < now))
}

/// A session token whose digest does not verify is rejected as
/// cryptographically invalid at every time alike: the signature check
/// precedes the expiry check, so tampering with the digest can never
/// surface as a temporal or structural failure instead.
pub proof fn lemma_signature_failure_never_temporal(
    token: Seq<char>,
    pkey: Seq<u8>,
    t1: int,
    t2: int,
)
    ensures
        (spec_verify_session(token, pkey, t1) is BadSignature) == (spec_verify_session(
            token,
            pkey,
            t2,
        ) is BadSignature),
        (spec_verify_session(token, pkey, t1) is BadSignature) ==> !(spec_verify_session(
            token,
            pkey,
            t2,
        ) is Expired),
{
}

/// Tampering with the digest of an otherwise canonical envelope is always
/// a cryptographic failure: wherever the carried digest decodes to a
/// signature the key rejects, verification reports the signature, at every
/// time alike — never a structural or temporal failure.
pub proof fn lemma_rejected_digest_is_cryptographic(
    c: ClaimsView,
    exp: int,
    nonce: Seq<char>,
    digest_b64: Seq<char>,
    pkey: Seq<u8>,
    t: int,
)
    ensures
        ({
            &&& crate::session_json::claims_in_range(c)
            &&& -0x8000_0000_0000_0000 <= exp <= 0x7fff_ffff_ffff_ffff
            &&& b64_decoding(digest_b64) matches Some(sig)
                && !ed25519_verifies(sig, encode_utf8(meta_json(c, exp, nonce)), pkey)
        }) ==> spec_verify_envelope(token_json(c, exp, nonce, digest_b64), pkey, t)
            == SessionOutcome::BadSignature,
{
    if crate::session_json::claims_in_range(c) && -0x8000_0000_0000_0000 <= exp
        <= 0x7fff_ffff_ffff_ffff {
        lemma_token_roundtrip(c, exp, nonce, digest_b64);
    }
}

/// Session verification is monotone in time: a token found valid at some
/// time is valid at every earlier time too, and a token found expired
/// stays expired at every later time — with the same claims either way.
pub proof fn lemma_expiry_monotone(token: Seq<char>, pkey: Seq<u8>, t1: int, t2: int)
    requires
        t1 <= t2,
    ensures
        spec_verify_session(token, pkey, t2) matches SessionOutcome::Valid(c) ==> spec_verify_session(
            token,
            pkey,
            t1,
        ) == SessionOutcome::Valid(c),
        spec_verify_session(token, pkey, t1) matches SessionOutcome::Expired(c)
            ==> spec_verify_session(token, pkey, t2) == SessionOutcome::Expired(c),
{
}

/// What the caller must do next after checking a session: hand the claims
/// out, or redeem the given refresh credential against the user store.
#[derive(Debug)]
pub enum SessionDecision {
    /// The token is valid; the session stands as these claims.
    Established(Claims),
    /// The token is expired but a refresh credential is present: rotate
    /// with this credential. The stale claims ride along for reference.
    Rotate(Claims, String),
}

impl Claims {
    /// Decides what a pair of cookies means, without touching any store:
    /// a missing token is invalid; a valid token establishes its claims; an
    /// expired token demands rotation where a refresh credential exists and
    /// is a temporal failure where none does.
    pub fn try_from_tokens(
        auth_token: &Option<String>,
        refresh_token: &Option<String>,
        key_store: &KeyStore,
        now: i64,
    ) -> (r: Result<SessionDecision, AuthError>)
        requires
            key_store.wf(),
        ensures
            auth_token is None ==> r == Result::<SessionDecision, AuthError>::Err(
                AuthError::InvalidToken,
            ),
            auth_token matches Some(tok) ==> match spec_verify_session(
                tok@,
                key_store.public_key@,
                now as int,
            ) {
                SessionOutcome::BadDecode => r == Result::<SessionDecision, AuthError>::Err(
                    AuthError::DecodeError,
                ),
                SessionOutcome::BadJson => r == Result::<SessionDecision, AuthError>::Err(
                    AuthError::JsonError,
                ),
                SessionOutcome::BadSignature => r == Result::<SessionDecision, AuthError>::Err(
                    AuthError::InvalidSignature,
                ),
                SessionOutcome::Valid(c) => (r matches Ok(SessionDecision::Established(cl))
                    && cl@ == c),
                SessionOutcome::Expired(c) => match refresh_token {
                    None => r == Result::<SessionDecision, AuthError>::Err(AuthError::TokenExpired),
                    Some(cred) => (r matches Ok(SessionDecision::Rotate(cl, rc)) && cl@ == c && rc@
                        == cred@),
                },
            },
    {
        let token = match auth_token {
            Some(t) => t,
            None => {
                return Err(AuthError::InvalidToken);
            },
        };
        let (claims, expired) = match verify_session_token(token.as_str(), key_store, now) {
            Ok(p) => p,
            Err(e) => {
                return Err(e);
            },
        };
        if expired {
            match refresh_token {
                Some(cred) => Ok(SessionDecision::Rotate(claims, cred.clone())),
                None => Err(AuthError::TokenExpired),
            }
        } else {
            Ok(SessionDecision::Established(claims))
        }
    }
}

} // verus!
