use vstd::prelude::*;

use crate::jsonscan::{fields_view, find_field, lookup_field, FieldView, JsonField};

verus! {

/// A fully verified bearer token: the required claims plus the
/// caller-typed payload.
pub struct Token<P> {
    pub claims: RequiredClaims,
    pub payload: P,
}

impl<P> Token<P> {
    /// Pairs verified claims with their typed payload.
    pub fn new(claims: RequiredClaims, payload: P) -> (r: Token<P>)
        ensures
            r.claims == claims,
            r.payload == payload,
    {
        Token { claims, payload }
    }
}

/// The claims every identity token must carry.
#[derive(Debug, Clone)]
pub struct RequiredClaims {
    pub issuer: String,
    pub subject: String,
    pub audience: String,
    pub android_audience: String,
    pub issued_at: u64,
    pub expires_at: u64,
}

/// The mathematical shape of the required claims.
pub struct RequiredClaimsView {
    pub issuer: Seq<char>,
    pub subject: Seq<char>,
    pub audience: Seq<char>,
    pub android_audience: Seq<char>,
    pub issued_at: int,
    pub expires_at: int,
}

impl View for RequiredClaims {
    type V = RequiredClaimsView;

    open spec fn view(&self) -> RequiredClaimsView {
        RequiredClaimsView {
            issuer: self.issuer@,
            subject: self.subject@,
            audience: self.audience@,
            android_audience: self.android_audience@,
            issued_at: self.issued_at as int,
            expires_at: self.expires_at as int,
        }
    }
}

/// The provider-specific identity attributes an identity token carries.
#[derive(Debug, Clone)]
pub struct IdPayload {
    pub email: Option<String>,
    pub email_verified: Option<bool>,
    pub name: String,
    pub picture: String,
    pub given_name: Option<String>,
    pub family_name: Option<String>,
    pub locale: Option<String>,
    pub domain: Option<String>,
}

/// The mathematical shape of the identity payload.
pub struct IdPayloadView {
    pub email: Option<Seq<char>>,
    pub email_verified: Option<bool>,
    pub name: Seq<char>,
    pub picture: Seq<char>,
    pub given_name: Option<Seq<char>>,
    pub family_name: Option<Seq<char>>,
    pub locale: Option<Seq<char>>,
    pub domain: Option<Seq<char>>,
}

impl View for IdPayload {
    type V = IdPayloadView;

    open spec fn view(&self) -> IdPayloadView {
        IdPayloadView {
            email: match &self.email {
                Some(s) => Some(s@),
                None => None,
            },
            email_verified: self.email_verified,
            name: self.name@,
            picture: self.picture@,
            given_name: match &self.given_name {
                Some(s) => Some(s@),
                None => None,
            },
            family_name: match &self.family_name {
                Some(s) => Some(s@),
                None => None,
            },
            locale: match &self.locale {
                Some(s) => Some(s@),
                None => None,
            },
            domain: match &self.domain {
                Some(s) => Some(s@),
                None => None,
            },
        }
    }
}

// ---------------------------------------------------------------------------
// Extraction of claims and payload from a scanned JSON object.
// ---------------------------------------------------------------------------

/// A required string member.
pub open spec fn str_member(ms: Seq<(Seq<char>, FieldView)>, key: Seq<char>) -> Option<Seq<char>> {
    match lookup_field(ms, key) {
        Some(FieldView::FStr(s)) => Some(s),
        _ => None,
    }
}

/// A required timestamp member: an integer that fits an unsigned 64-bit
/// count of seconds.
pub open spec fn ts_member(ms: Seq<(Seq<char>, FieldView)>, key: Seq<char>) -> Option<int> {
    match lookup_field(ms, key) {
        Some(FieldView::FInt(v)) => if v >= 0 {
            Some(v)
        } else {
            None
        },
        _ => None,
    }
}

/// An optional string member: absent and null both mean none, any other
/// shape is a type error.
pub open spec fn opt_str_member(ms: Seq<(Seq<char>, FieldView)>, key: Seq<char>) -> Option<
    Option<Seq<char>>,
> {
    match lookup_field(ms, key) {
        None => Some(None),
        Some(FieldView::FNull) => Some(None),
        Some(FieldView::FStr(s)) => Some(Some(s)),
        Some(_) => None,
    }
}

/// An optional boolean member.
pub open spec fn opt_bool_member(ms: Seq<(Seq<char>, FieldView)>, key: Seq<char>) -> Option<
    Option<bool>,
> {
    match lookup_field(ms, key) {
        None => Some(None),
        Some(FieldView::FNull) => Some(None),
        Some(FieldView::FBool(b)) => Some(Some(b)),
        Some(_) => None,
    }
}

/// A string member that falls back to the empty string when absent.
pub open spec fn dflt_str_member(ms: Seq<(Seq<char>, FieldView)>, key: Seq<char>) -> Option<
    Seq<char>,
> {
    match lookup_field(ms, key) {
        None => Some(Seq::empty()),
        Some(FieldView::FStr(s)) => Some(s),
        Some(_) => None,
    }
}

/// The required claims a scanned payload object yields, where it is
/// well-typed.
pub open spec fn claims_from_fields(ms: Seq<(Seq<char>, FieldView)>) -> Option<RequiredClaimsView> {
    if str_member(ms, "iss"@) is Some && str_member(ms, "sub"@) is Some && str_member(ms, "aud"@)
        is Some && str_member(ms, "azp"@) is Some && ts_member(ms, "iat"@) is Some && ts_member(
        ms,
        "exp"@,
    ) is Some {
        Some(
            RequiredClaimsView {
                issuer: str_member(ms, "iss"@).unwrap(),
                subject: str_member(ms, "sub"@).unwrap(),
                audience: str_member(ms, "aud"@).unwrap(),
                android_audience: str_member(ms, "azp"@).unwrap(),
                issued_at: ts_member(ms, "iat"@).unwrap(),
                expires_at: ts_member(ms, "exp"@).unwrap(),
            },
        )
    } else {
        None
    }
}

/// The identity payload a scanned payload object yields, where it is
/// well-typed.
pub open spec fn payload_from_fields(ms: Seq<(Seq<char>, FieldView)>) -> Option<IdPayloadView> {
    if opt_str_member(ms, "email"@) is Some && opt_bool_member(ms, "email_verified"@) is Some
        && dflt_str_member(ms, "name"@) is Some && dflt_str_member(ms, "picture"@) is Some
        && opt_str_member(ms, "given_name"@) is Some && opt_str_member(ms, "family_name"@) is Some
        && opt_str_member(ms, "locale"@) is Some && opt_str_member(ms, "hd"@) is Some {
        Some(
            IdPayloadView {
                email: opt_str_member(ms, "email"@).unwrap(),
                email_verified: opt_bool_member(ms, "email_verified"@).unwrap(),
                name: dflt_str_member(ms, "name"@).unwrap(),
                picture: dflt_str_member(ms, "picture"@).unwrap(),
                given_name: opt_str_member(ms, "given_name"@).unwrap(),
                family_name: opt_str_member(ms, "family_name"@).unwrap(),
                locale: opt_str_member(ms, "locale"@).unwrap(),
                domain: opt_str_member(ms, "hd"@).unwrap(),
            },
        )
    } else {
        None
    }
}

/// Reads a required string member out of a scanned object.
pub fn get_str_member(fields: &Vec<(String, JsonField)>, key: &str) -> (r: Option<String>)
    ensures
        match r {
            Some(s) => str_member(fields_view(fields@), key@) == Some(s@),
            None => str_member(fields_view(fields@), key@) is None,
        },
{
    match find_field(fields, key) {
        Some(JsonField::JStr(s)) => Some(s.clone()),
        _ => None,
    }
}

/// Reads a required timestamp member out of a scanned object.
pub fn get_ts_member(fields: &Vec<(String, JsonField)>, key: &str) -> (r: Option<u64>)
    ensures
        match r {
            Some(v) => ts_member(fields_view(fields@), key@) == Some(v as int),
            None => ts_member(fields_view(fields@), key@) is None,
        },
{
    match find_field(fields, key) {
        Some(JsonField::JInt(v)) => {
            if *v >= 0 {
                Some(*v as u64)
            } else {
                None
            }
        },
        _ => None,
    }
}

/// Reads an optional string member out of a scanned object.
pub fn get_opt_str_member(fields: &Vec<(String, JsonField)>, key: &str) -> (r: Option<
    Option<String>,
>)
    ensures
        match r {
            Some(Some(s)) => opt_str_member(fields_view(fields@), key@) == Some(Some(s@)),
            Some(None) => opt_str_member(fields_view(fields@), key@) == Some(None::<Seq<char>>),
            None => opt_str_member(fields_view(fields@), key@) is None,
        },
{
    match find_field(fields, key) {
        None => Some(None),
        Some(JsonField::JNull) => Some(None),
        Some(JsonField::JStr(s)) => Some(Some(s.clone())),
        Some(_) => None,
    }
}

/// Reads an optional boolean member out of a scanned object.
pub fn get_opt_bool_member(fields: &Vec<(String, JsonField)>, key: &str) -> (r: Option<
    Option<bool>,
>)
    ensures
        match r {
            Some(b) => opt_bool_member(fields_view(fields@), key@) == Some(b),
            None => opt_bool_member(fields_view(fields@), key@) is None,
        },
{
    match find_field(fields, key) {
        None => Some(None),
        Some(JsonField::JNull) => Some(None),
        Some(JsonField::JBool(b)) => Some(Some(*b)),
        Some(_) => None,
    }
}

/// Reads a defaulted string member out of a scanned object.
pub fn get_dflt_str_member(fields: &Vec<(String, JsonField)>, key: &str) -> (r: Option<String>)
    ensures
        match r {
            Some(s) => dflt_str_member(fields_view(fields@), key@) == Some(s@),
            None => dflt_str_member(fields_view(fields@), key@) is None,
        },
{
    match find_field(fields, key) {
        None => Some(String::new()),
        Some(JsonField::JStr(s)) => Some(s.clone()),
        Some(_) => None,
    }
}

/// Builds the required claims from a scanned payload object.
pub fn claims_from_object(fields: &Vec<(String, JsonField)>) -> (r: Option<RequiredClaims>)
    ensures
        match r {
            Some(c) => claims_from_fields(fields_view(fields@)) == Some(c@),
            None => claims_from_fields(fields_view(fields@)) is None,
        },
{
    let issuer = match get_str_member(fields, "iss") {
        Some(s) => s,
        None => {
            return None;
        },
    };
    let subject = match get_str_member(fields, "sub") {
        Some(s) => s,
        None => {
            return None;
        },
    };
    let audience = match get_str_member(fields, "aud") {
        Some(s) => s,
        None => {
            return None;
        },
    };
    let android_audience = match get_str_member(fields, "azp") {
        Some(s) => s,
        None => {
            return None;
        },
    };
    let issued_at = match get_ts_member(fields, "iat") {
        Some(v) => v,
        None => {
            return None;
        },
    };
    let expires_at = match get_ts_member(fields, "exp") {
        Some(v) => v,
        None => {
            return None;
        },
    };
    Some(RequiredClaims { issuer, subject, audience, android_audience, issued_at, expires_at })
}

/// Builds the identity payload from a scanned payload object.
pub fn payload_from_object(fields: &Vec<(String, JsonField)>) -> (r: Option<IdPayload>)
    ensures
        match r {
            Some(p) => payload_from_fields(fields_view(fields@)) == Some(p@),
            None => payload_from_fields(fields_view(fields@)) is None,
        },
{
    let email = match get_opt_str_member(fields, "email") {
        Some(v) => v,
        None => {
            return None;
        },
    };
    let email_verified = match get_opt_bool_member(fields, "email_verified") {
        Some(v) => v,
        None => {
            return None;
        },
    };
    let name = match get_dflt_str_member(fields, "name") {
        Some(v) => v,
        None => {
            return None;
        },
    };
    let picture = match get_dflt_str_member(fields, "picture") {
        Some(v) => v,
        None => {
            return None;
        },
    };
    let given_name = match get_opt_str_member(fields, "given_name") {
        Some(v) => v,
        None => {
            return None;
        },
    };
    let family_name = match get_opt_str_member(fields, "family_name") {
        Some(v) => v,
        None => {
            return None;
        },
    };
    let locale = match get_opt_str_member(fields, "locale") {
        Some(v) => v,
        None => {
            return None;
        },
    };
    let domain = match get_opt_str_member(fields, "hd") {
        Some(v) => v,
        None => {
            return None;
        },
    };
    Some(
        IdPayload {
            email,
            email_verified,
            name,
            picture,
            given_name,
            family_name,
            locale,
            domain,
        },
    )
}

} // verus!
