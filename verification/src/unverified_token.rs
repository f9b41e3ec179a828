use vstd::prelude::*;

use crate::b64::{b64_decode, b64_decoding};
use crate::errors::GoogleError;
use crate::jsonscan::{parse_flat_object, scan_flat_object, strip_json_ws, strip_ws_from};
use crate::jwk::JsonWebKey;
use crate::structure::Header;
use crate::strutil::{chars_range, chars_to_string, str_eq, str_to_chars, utf8_to_string};
use crate::token::{
    claims_from_fields, claims_from_object, get_str_member, payload_from_fields,
    payload_from_object, str_member, IdPayload, IdPayloadView, RequiredClaims, RequiredClaimsView,
    Token,
};
use crate::util::unix_secs;
use vstd::utf8::{decode_utf8, encode_utf8, valid_utf8};

verus! {

/// The first dot at or after `from`.
pub open spec fn find_dot(s: Seq<char>, from: int) -> Option<int>
    decreases s.len() - from,
{
    if from < 0 || from >= s.len() {
        None
    } else if s[from] == '.' {
        Some(from)
    } else {
        find_dot(s, from + 1)
    }
}

/// The three non-empty dot-separated segments of a compact token; fewer
/// dots, more dots or an empty segment yield nothing.
pub open spec fn split3(s: Seq<char>) -> Option<(Seq<char>, Seq<char>, Seq<char>)> {
    match find_dot(s, 0) {
        None => None,
        Some(d1) => match find_dot(s, d1 + 1) {
            None => None,
            Some(d2) => if find_dot(s, d2 + 1) is Some {
                None
            } else if d1 > 0 && d2 > d1 + 1 && d2 + 1 < s.len() {
                Some((s.subrange(0, d1), s.subrange(d1 + 1, d2), s.skip(d2 + 1)))
            } else {
                None
            },
        },
    }
}

/// Why a token was rejected, by kind: structural, decoding, JSON shape,
/// semantic, temporal.
pub enum ValidationError {
    MalformedStructure,
    DecodeFailure,
    HeaderJson,
    PayloadJson,
    BadAudience,
    BadIssuer,
    ExpiredToken,
    TimestampOrder,
}

/// What structural and semantic validation extracts from a token.
pub struct TokenPartsView {
    pub header_kid: Seq<char>,
    pub signed_body: Seq<char>,
    pub signature: Seq<u8>,
    pub claims: RequiredClaimsView,
    pub payload: IdPayloadView,
}

/// The validation pipeline as a function of the token text, the audience
/// check and the clock: split, decode header and signature, read the
/// header's key id, decode and read the payload, then check audience,
/// issuer, expiry (unless disabled) and timestamp order, failing fast at
/// the first violation.
pub open spec fn spec_validate(
    token: Seq<char>,
    check_expiration: bool,
    client_id: Seq<char>,
    now: int,
) -> Result<TokenPartsView, ValidationError> {
    match split3(token) {
        None => Err(ValidationError::MalformedStructure),
        Some((h, p, sg)) => match b64_decoding(h) {
            None => Err(ValidationError::DecodeFailure),
            Some(hb) => match b64_decoding(sg) {
                None => Err(ValidationError::DecodeFailure),
                Some(sgb) => if !valid_utf8(hb) {
                    Err(ValidationError::HeaderJson)
                } else {
                    match parse_flat_object(
                        strip_ws_from(decode_utf8(hb), 0, false, false),
                    ) {
                        None => Err(ValidationError::HeaderJson),
                        Some(hm) => match str_member(hm, "kid"@) {
                            None => Err(ValidationError::HeaderJson),
                            Some(kid) => match b64_decoding(p) {
                                None => Err(ValidationError::DecodeFailure),
                                Some(pb) => if !valid_utf8(pb) {
                                    Err(ValidationError::PayloadJson)
                                } else {
                                    match parse_flat_object(
                                        strip_ws_from(decode_utf8(pb), 0, false, false),
                                    ) {
                                        None => Err(ValidationError::PayloadJson),
                                        Some(pm) => match claims_from_fields(pm) {
                                            None => Err(ValidationError::PayloadJson),
                                            Some(claims) => match payload_from_fields(pm) {
                                                None => Err(ValidationError::PayloadJson),
                                                Some(payload) => if claims.audience != client_id {
                                                    Err(ValidationError::BadAudience)
                                                } else if claims.issuer
                                                    != "https://accounts.google.com"@
                                                    && claims.issuer != "accounts.google.com"@ {
                                                    Err(ValidationError::BadIssuer)
                                                } else if check_expiration && claims.expires_at
                                                    < now {
                                                    Err(ValidationError::ExpiredToken)
                                                } else if claims.issued_at > claims.expires_at {
                                                    Err(ValidationError::TimestampOrder)
                                                } else {
                                                    Ok(
                                                        TokenPartsView {
                                                            header_kid: kid,
                                                            signed_body: h + seq!['.'] + p,
                                                            signature: sgb,
                                                            claims,
                                                            payload,
                                                        },
                                                    )
                                                },
                                            },
                                        },
                                    }
                                },
                            },
                        },
                    }
                },
            },
        },
    }
}

/// A structurally and semantically validated token, before its signature
/// has been checked against a verification key.
pub struct UnverifiedToken {
    pub header: Header,
    pub signed_body: String,
    pub signature: Vec<u8>,
    pub claims: RequiredClaims,
    pub json_payload: IdPayload,
}

/// How an exec validation result must relate to the validation pipeline.
pub open spec fn validate_post(
    r: Result<UnverifiedToken, GoogleError>,
    token: Seq<char>,
    check_expiration: bool,
    client_id: Seq<char>,
    now: int,
) -> bool {
    match spec_validate(token, check_expiration, client_id, now) {
        Ok(tp) => {
            &&& r matches Ok(u)
            &&& (r matches Ok(u) ==> {
                &&& u.header.key_id@ == tp.header_kid
                &&& u.signed_body@ == tp.signed_body
                &&& u.signature@ == tp.signature
                &&& u.claims@ == tp.claims
                &&& u.json_payload@ == tp.payload
            })
        },
        Err(ValidationError::MalformedStructure) => r matches Err(GoogleError::InvalidToken(m))
            && m@ == "malformed structure"@,
        Err(ValidationError::DecodeFailure) => r matches Err(GoogleError::InvalidToken(m)) && m@
            == "decode error"@,
        Err(ValidationError::HeaderJson) => r matches Err(GoogleError::SerdeError(m)) && m@
            == "invalid header json"@,
        Err(ValidationError::PayloadJson) => r matches Err(GoogleError::SerdeError(m)) && m@
            == "invalid payload json"@,
        Err(ValidationError::BadAudience) => r matches Err(GoogleError::InvalidToken(m)) && m@
            == "invalid audience"@,
        Err(ValidationError::BadIssuer) => r matches Err(GoogleError::InvalidToken(m)) && m@
            == "invalid issuer"@,
        Err(ValidationError::ExpiredToken) => r matches Err(GoogleError::Expired),
        Err(ValidationError::TimestampOrder) => r matches Err(GoogleError::InvalidToken(m)) && m@
            == "invalid expires at"@,
    }
}

/// Finds the first dot at or after `from`.
#[verifier::loop_isolation(false)]
fn find_dot_exec(s: &Vec<char>, from: usize) -> (r: Option<usize>)
    requires
        from <= s@.len(),
    ensures
        match r {
            Some(d) => from <= d < s@.len() && find_dot(s@, from as int) == Some(d as int),
            None => find_dot(s@, from as int) is None,
        },
{
    let mut i: usize = from;
    while i < s.len()
        invariant
            from <= i <= s@.len(),
            find_dot(s@, from as int) == find_dot(s@, i as int),
        decreases s@.len() - i,
    {
        if s[i] == '.' {
            return Some(i);
        }
        i += 1;
    }
    None
}

impl UnverifiedToken {
    /// Structurally and semantically validates a compact token against a
    /// client id at an explicit time. No key is looked up and no network
    /// is touched here: a token that fails any of these checks — the
    /// audience check among them — never reaches key retrieval.
    #[verifier::loop_isolation(false)]
    #[verifier::rlimit(100)]
    pub fn validate_at(
        token_string: &str,
        check_expiration: bool,
        client_id: &str,
        now: u64,
    ) -> (r: Result<UnverifiedToken, GoogleError>)
        ensures
            validate_post(r, token_string@, check_expiration, client_id@, now as int),
    {
        let chars = str_to_chars(token_string);
        let d1 = match find_dot_exec(&chars, 0) {
            Some(d) => d,
            None => {
                return Err(GoogleError::InvalidToken("malformed structure"));
            },
        };
        let d2 = match find_dot_exec(&chars, d1 + 1) {
            Some(d) => d,
            None => {
                return Err(GoogleError::InvalidToken("malformed structure"));
            },
        };
        match find_dot_exec(&chars, d2 + 1) {
            Some(_) => {
                return Err(GoogleError::InvalidToken("malformed structure"));
            },
            None => {},
        }
        if !(d1 > 0 && d2 > d1 + 1 && d2 + 1 < chars.len()) {
            return Err(GoogleError::InvalidToken("malformed structure"));
        }
        let header_seg = chars_range(&chars, 0, d1);
        let payload_seg = chars_range(&chars, d1 + 1, d2);
        let signature_seg = chars_range(&chars, d2 + 1, chars.len());
        proof {
            assert(signature_seg@ =~= chars@.skip(d2 + 1));
        }
        let header_b64 = chars_to_string(&header_seg);
        let payload_b64 = chars_to_string(&payload_seg);
        let signature_b64 = chars_to_string(&signature_seg);
        let header_bytes = match b64_decode(header_b64.as_str()) {
            Some(b) => b,
            None => {
                return Err(GoogleError::InvalidToken("decode error"));
            },
        };
        let signature = match b64_decode(signature_b64.as_str()) {
            Some(b) => b,
            None => {
                return Err(GoogleError::InvalidToken("decode error"));
            },
        };
        let header_text = match utf8_to_string(header_bytes) {
            Some(t) => t,
            None => {
                return Err(GoogleError::SerdeError(String::from_str("invalid header json")));
            },
        };
        let header_chars = str_to_chars(header_text.as_str());
        let header_stripped = strip_json_ws(&header_chars);
        let header_fields = match scan_flat_object(&header_stripped) {
            Some(f) => f,
            None => {
                return Err(GoogleError::SerdeError(String::from_str("invalid header json")));
            },
        };
        let kid = match get_str_member(&header_fields, "kid") {
            Some(s) => s,
            None => {
                return Err(GoogleError::SerdeError(String::from_str("invalid header json")));
            },
        };
        let payload_bytes = match b64_decode(payload_b64.as_str()) {
            Some(b) => b,
            None => {
                return Err(GoogleError::InvalidToken("decode error"));
            },
        };
        let payload_text = match utf8_to_string(payload_bytes) {
            Some(t) => t,
            None => {
                return Err(GoogleError::SerdeError(String::from_str("invalid payload json")));
            },
        };
        let payload_chars = str_to_chars(payload_text.as_str());
        let payload_stripped = strip_json_ws(&payload_chars);
        let payload_fields = match scan_flat_object(&payload_stripped) {
            Some(f) => f,
            None => {
                return Err(GoogleError::SerdeError(String::from_str("invalid payload json")));
            },
        };
        let claims = match claims_from_object(&payload_fields) {
            Some(c) => c,
            None => {
                return Err(GoogleError::SerdeError(String::from_str("invalid payload json")));
            },
        };
        let json_payload = match payload_from_object(&payload_fields) {
            Some(p) => p,
            None => {
                return Err(GoogleError::SerdeError(String::from_str("invalid payload json")));
            },
        };
        if !str_eq(claims.audience.as_str(), client_id) {
            return Err(GoogleError::InvalidToken("invalid audience"));
        }
        if !str_eq(claims.issuer.as_str(), "https://accounts.google.com") && !str_eq(
            claims.issuer.as_str(),
            "accounts.google.com",
        ) {
            return Err(GoogleError::InvalidToken("invalid issuer"));
        }
        if check_expiration && claims.expires_at < now {
            return Err(GoogleError::Expired);
        }
        if claims.issued_at > claims.expires_at {
            return Err(GoogleError::InvalidToken("invalid expires at"));
        }
        let mut body_chars = header_seg;
        body_chars.push('.');
        let mut p_idx: usize = 0;
        while p_idx < payload_seg.len()
            invariant
                p_idx <= payload_seg@.len(),
                body_chars@ =~= chars@.subrange(0, d1 as int) + seq!['.']
                    + payload_seg@.subrange(0, p_idx as int),
            decreases payload_seg@.len() - p_idx,
        {
            body_chars.push(payload_seg[p_idx]);
            p_idx += 1;
            proof {
                assert(body_chars@ =~= chars@.subrange(0, d1 as int) + seq!['.']
                    + payload_seg@.subrange(0, p_idx as int));
            }
        }
        proof {
            assert(payload_seg@.subrange(0, payload_seg@.len() as int) =~= payload_seg@);
        }
        let signed_body = chars_to_string(&body_chars);
        Ok(
            UnverifiedToken {
                header: Header { key_id: kid },
                signed_body,
                signature,
                claims,
                json_payload,
            },
        )
    }

    /// Validates against the current clock.
    pub fn validate(token_string: &str, check_expiration: bool, client_id: &str) -> (r: Result<
        UnverifiedToken,
        GoogleError,
    >)
        ensures
            exists|t: int|
                0 <= t && #[trigger] validate_post(
                    r,
                    token_string@,
                    check_expiration,
                    client_id@,
                    t,
                ),
    {
        let now_signed = unix_secs();
        let now = now_signed as u64;
        let r = Self::validate_at(token_string, check_expiration, client_id, now);
        proof {
            assert(validate_post(r, token_string@, check_expiration, client_id@, now as int));
        }
        r
    }

    /// Finishes verification with the key the configured source handed
    /// back: no key is a structural rejection, a retrieval failure is its
    /// own kind, and an available key decides through its own `verify` —
    /// acceptance returns the validated claims and payload, rejection the
    /// key's cryptographic or unsupported-algorithm error.
    pub fn verify_with_key(self, key: Result<Option<JsonWebKey>, ()>) -> (r: Result<
        Token<IdPayload>,
        GoogleError,
    >)
        ensures
            key matches Err(u) ==> r matches Err(GoogleError::RetrieveKeyFailure),
            key == Result::<Option<JsonWebKey>, ()>::Ok(None::<JsonWebKey>) ==> (r matches Err(
                GoogleError::InvalidToken(m),
            ) && m@ == "missing key"@),
            key matches Ok(Some(k)) ==> r == (match crate::jwk::spec_jwk_verify(
                k@,
                encode_utf8(self.signed_body@),
                self.signature@,
            ) {
                Ok(u) => Result::<Token<IdPayload>, GoogleError>::Ok(
                    Token { claims: self.claims, payload: self.json_payload },
                ),
                Err(e) => Result::<Token<IdPayload>, GoogleError>::Err(e),
            }),
    {
        let key = match key {
            Ok(Some(key)) => key,
            Ok(None) => {
                return Err(GoogleError::InvalidToken("missing key"));
            },
            Err(_) => {
                return Err(GoogleError::RetrieveKeyFailure);
            },
        };
        match key.verify(self.signed_body.as_str().as_bytes(), self.signature.as_slice()) {
            Ok(_) => Ok(Token::new(self.claims, self.json_payload)),
            Err(e) => Err(e),
        }
    }
}

// ---------------------------------------------------------------------------
// Validation laws.
// ---------------------------------------------------------------------------

/// A token whose issued-at lies after its expires-at never validates:
/// every accepted token carries ordered timestamps, even where the
/// expiry check itself is disabled.
pub proof fn lemma_validated_timestamps_ordered(
    token: Seq<char>,
    check_expiration: bool,
    client_id: Seq<char>,
    now: int,
)
    ensures
        spec_validate(token, check_expiration, client_id, now) matches Ok(tp) ==> tp.claims.issued_at
            <= tp.claims.expires_at,
{
}

/// A token whose audience differs from the configured client id is
/// rejected as such whatever the clock says: the audience check needs no
/// key and precedes both the expiry check and every key concern.
pub proof fn lemma_audience_checked_first(
    token: Seq<char>,
    check_expiration: bool,
    client_id: Seq<char>,
    t1: int,
    t2: int,
)
    ensures
        (spec_validate(token, check_expiration, client_id, t1) matches Err(e)
            && e == ValidationError::BadAudience) ==> (spec_validate(
            token,
            check_expiration,
            client_id,
            t2,
        ) matches Err(e2) && e2 == ValidationError::BadAudience),
{
}

} // verus!
