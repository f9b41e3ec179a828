use vstd::prelude::*;

use crate::claims::{Claims, ClaimsView};
use crate::jsontext::{
    int_chars, json_string, parse_exact, parse_int, parse_json_string, push_i64, push_json_string,
    push_lit, scan_exact, scan_i64, scan_json_string,
};
use crate::strutil::chars_to_string;

verus! {

// ---------------------------------------------------------------------------
// The canonical JSON wire form of a session token:
//   {"m":{"c":{"uid":U,"e":"E","n":"N","r":"R"[,"a":A]},"exp":X,"n":"NO"},"d":"D"}
// Keys are short to keep cookies small; the claims, envelope and digest are
// always laid out in this exact order, so the strict parser below inverts
// the serializer precisely.
// ---------------------------------------------------------------------------

/// The canonical rendering of session claims.
pub open spec fn claims_json(c: ClaimsView) -> Seq<char> {
    "{\"uid\":"@ + int_chars(c.uid) + ",\"e\":"@ + json_string(c.email) + ",\"n\":"@ + json_string(
        c.username,
    ) + ",\"r\":"@ + json_string(c.role) + (match c.agency_id {
        Some(a) => ",\"a\":"@ + int_chars(a),
        None => Seq::<char>::empty(),
    }) + "}"@
}

/// The canonical rendering of the signed envelope: claims, expiry, nonce.
pub open spec fn meta_json(c: ClaimsView, expires: int, nonce: Seq<char>) -> Seq<char> {
    "{\"c\":"@ + claims_json(c) + ",\"exp\":"@ + int_chars(expires) + ",\"n\":"@ + json_string(
        nonce,
    ) + "}"@
}

/// The canonical rendering of the whole token: envelope plus digest.
pub open spec fn token_json(c: ClaimsView, expires: int, nonce: Seq<char>, digest: Seq<char>) -> Seq<
    char,
> {
    "{\"m\":"@ + meta_json(c, expires, nonce) + ",\"d\":"@ + json_string(digest) + "}"@
}

/// Whether a claims view fits the machine types it is carried in.
pub open spec fn claims_in_range(c: ClaimsView) -> bool {
    &&& -0x8000_0000 <= c.uid <= 0x7fff_ffff
    &&& match c.agency_id {
        Some(a) => -0x8000_0000 <= a <= 0x7fff_ffff,
        None => true,
    }
}

// ---------------------------------------------------------------------------
// Strict parsers, inverse to the serialization above.
// ---------------------------------------------------------------------------

/// Reads the canonical claims object, including its 32-bit range checks.
pub open spec fn parse_claims(s: Seq<char>) -> Option<(ClaimsView, Seq<char>)> {
    match parse_exact(s, "{\"uid\":"@) {
        None => None,
        Some(s1) => match parse_int(s1) {
            None => None,
            Some((uid, s2)) => if uid < -0x8000_0000 || 0x7fff_ffff < uid {
                None
            } else {
                match parse_exact(s2, ",\"e\":"@) {
                    None => None,
                    Some(s3) => match parse_json_string(s3) {
                        None => None,
                        Some((email, s4)) => match parse_exact(s4, ",\"n\":"@) {
                            None => None,
                            Some(s5) => match parse_json_string(s5) {
                                None => None,
                                Some((username, s6)) => match parse_exact(s6, ",\"r\":"@) {
                                    None => None,
                                    Some(s7) => match parse_json_string(s7) {
                                        None => None,
                                        Some((role, s8)) => parse_claims_tail(
                                            s8,
                                            uid,
                                            email,
                                            username,
                                            role,
                                        ),
                                    },
                                },
                            },
                        },
                    },
                }
            },
        },
    }
}

/// Reads what follows the role: either the closing brace, or one optional
/// tenant field and then the brace.
pub open spec fn parse_claims_tail(
    s: Seq<char>,
    uid: int,
    email: Seq<char>,
    username: Seq<char>,
    role: Seq<char>,
) -> Option<(ClaimsView, Seq<char>)> {
    match parse_exact(s, "}"@) {
        Some(s9) => Some(
            (ClaimsView { uid, email, username, role, agency_id: None::<int> }, s9),
        ),
        None => match parse_exact(s, ",\"a\":"@) {
            None => None,
            Some(s9) => match parse_int(s9) {
                None => None,
                Some((a, s10)) => if a < -0x8000_0000 || 0x7fff_ffff < a {
                    None
                } else {
                    match parse_exact(s10, "}"@) {
                        None => None,
                        Some(s11) => Some(
                            (ClaimsView { uid, email, username, role, agency_id: Some(a) }, s11),
                        ),
                    }
                },
            },
        },
    }
}

/// Reads the canonical envelope: claims, expiry, nonce.
pub open spec fn parse_meta(s: Seq<char>) -> Option<((ClaimsView, int, Seq<char>), Seq<char>)> {
    match parse_exact(s, "{\"c\":"@) {
        None => None,
        Some(s1) => match parse_claims(s1) {
            None => None,
            Some((c, s2)) => match parse_exact(s2, ",\"exp\":"@) {
                None => None,
                Some(s3) => match parse_int(s3) {
                    None => None,
                    Some((exp, s4)) => match parse_exact(s4, ",\"n\":"@) {
                        None => None,
                        Some(s5) => match parse_json_string(s5) {
                            None => None,
                            Some((nonce, s6)) => match parse_exact(s6, "}"@) {
                                None => None,
                                Some(s7) => Some(((c, exp, nonce), s7)),
                            },
                        },
                    },
                },
            },
        },
    }
}

/// Reads a whole canonical token; nothing may follow the closing brace.
pub open spec fn parse_session_token(s: Seq<char>) -> Option<(ClaimsView, int, Seq<char>, Seq<char>)> {
    match parse_exact(s, "{\"m\":"@) {
        None => None,
        Some(s1) => match parse_meta(s1) {
            None => None,
            Some(((c, exp, nonce), s2)) => match parse_exact(s2, ",\"d\":"@) {
                None => None,
                Some(s3) => match parse_json_string(s3) {
                    None => None,
                    Some((digest, s4)) => match parse_exact(s4, "}"@) {
                        None => None,
                        Some(s5) => if s5.len() == 0 {
                            Some((c, exp, nonce, digest))
                        } else {
                            None
                        },
                    },
                },
            },
        },
    }
}

// ---------------------------------------------------------------------------
// Exec serializers.
// ---------------------------------------------------------------------------

/// Appends the canonical claims object.
pub fn build_claims_into(out: &mut Vec<char>, c: &Claims)
    ensures
        final(out)@ == old(out)@ + claims_json(c@),
{
    push_lit(out, "{\"uid\":");
    push_i64(out, c.uid as i64);
    push_lit(out, ",\"e\":");
    push_json_string(out, c.email.as_str());
    push_lit(out, ",\"n\":");
    push_json_string(out, c.username.as_str());
    push_lit(out, ",\"r\":");
    push_json_string(out, c.role.as_str());
    match &c.agency_id {
        Some(a) => {
            push_lit(out, ",\"a\":");
            push_i64(out, *a as i64);
        },
        None => {},
    }
    push_lit(out, "}");
    proof {
        assert(out@ =~= old(out)@ + claims_json(c@));
    }
}

/// Appends the canonical envelope.
pub fn build_meta_into(out: &mut Vec<char>, c: &Claims, expires: i64, nonce: &str)
    ensures
        final(out)@ == old(out)@ + meta_json(c@, expires as int, nonce@),
{
    push_lit(out, "{\"c\":");
    build_claims_into(out, c);
    push_lit(out, ",\"exp\":");
    push_i64(out, expires);
    push_lit(out, ",\"n\":");
    push_json_string(out, nonce);
    push_lit(out, "}");
    proof {
        assert(out@ =~= old(out)@ + meta_json(c@, expires as int, nonce@));
    }
}

/// Builds the canonical token text around an already-built envelope.
pub fn build_token_chars(meta: &Vec<char>, digest: &str) -> (r: Vec<char>)
    ensures
        r@ == "{\"m\":"@ + meta@ + ",\"d\":"@ + json_string(digest@) + "}"@,
{
    let mut out: Vec<char> = Vec::new();
    push_lit(&mut out, "{\"m\":");
    let mut i: usize = 0;
    while i < meta.len()
        invariant
            i <= meta@.len(),
            out@ =~= "{\"m\":"@ + meta@.subrange(0, i as int),
        decreases meta@.len() - i,
    {
        out.push(meta[i]);
        i += 1;
        proof {
            assert(out@ =~= "{\"m\":"@ + meta@.subrange(0, i as int));
        }
    }
    proof {
        assert(meta@.subrange(0, meta@.len() as int) =~= meta@);
    }
    push_lit(&mut out, ",\"d\":");
    push_json_string(&mut out, digest);
    push_lit(&mut out, "}");
    proof {
        assert(out@ =~= "{\"m\":"@ + meta@ + ",\"d\":"@ + json_string(digest@) + "}"@);
    }
    out
}

// ---------------------------------------------------------------------------
// Exec parser.
// ---------------------------------------------------------------------------

/// Reads a whole canonical token out of a character buffer.
#[verifier::rlimit(100)]
pub fn scan_session_token(s: &Vec<char>) -> (r: Option<(Claims, i64, String, String)>)
    ensures
        match r {
            Some((c, exp, nonce, digest)) => parse_session_token(s@) == Some(
                (c@, exp as int, nonce@, digest@),
            ),
            None => parse_session_token(s@) is None,
        },
{
    proof {
        assert(s@.skip(0) =~= s@);
    }
    let i0 = match scan_exact(s, 0, "{\"m\":") {
        Some(i) => i,
        None => {
            return None;
        },
    };
    let i1 = match scan_exact(s, i0, "{\"c\":") {
        Some(i) => i,
        None => {
            return None;
        },
    };
    let i2 = match scan_exact(s, i1, "{\"uid\":") {
        Some(i) => i,
        None => {
            return None;
        },
    };
    let (uid64, i3) = match scan_i64(s, i2) {
        Some(p) => p,
        None => {
            return None;
        },
    };
    if uid64 < -0x8000_0000i64 || 0x7fff_ffffi64 < uid64 {
        return None;
    }
    let uid = uid64 as i32;
    let i4 = match scan_exact(s, i3, ",\"e\":") {
        Some(i) => i,
        None => {
            return None;
        },
    };
    let (email_chars, i5) = match scan_json_string(s, i4) {
        Some(p) => p,
        None => {
            return None;
        },
    };
    let i6 = match scan_exact(s, i5, ",\"n\":") {
        Some(i) => i,
        None => {
            return None;
        },
    };
    let (username_chars, i7) = match scan_json_string(s, i6) {
        Some(p) => p,
        None => {
            return None;
        },
    };
    let i8 = match scan_exact(s, i7, ",\"r\":") {
        Some(i) => i,
        None => {
            return None;
        },
    };
    let (role_chars, i9) = match scan_json_string(s, i8) {
        Some(p) => p,
        None => {
            return None;
        },
    };
    // the optional tenant field, then the closing brace of the claims
    let mut agency_id: Option<i32> = None;
    let i10: usize;
    match scan_exact(s, i9, "}") {
        Some(i) => {
            i10 = i;
        },
        None => {
            let ia = match scan_exact(s, i9, ",\"a\":") {
                Some(i) => i,
                None => {
                    return None;
                },
            };
            let (a64, ib) = match scan_i64(s, ia) {
                Some(p) => p,
                None => {
                    return None;
                },
            };
            if a64 < -0x8000_0000i64 || 0x7fff_ffffi64 < a64 {
                return None;
            }
            agency_id = Some(a64 as i32);
            let ic = match scan_exact(s, ib, "}") {
                Some(i) => i,
                None => {
                    return None;
                },
            };
            i10 = ic;
        },
    }
    let i11 = match scan_exact(s, i10, ",\"exp\":") {
        Some(i) => i,
        None => {
            return None;
        },
    };
    let (exp, i12) = match scan_i64(s, i11) {
        Some(p) => p,
        None => {
            return None;
        },
    };
    let i13 = match scan_exact(s, i12, ",\"n\":") {
        Some(i) => i,
        None => {
            return None;
        },
    };
    let (nonce_chars, i14) = match scan_json_string(s, i13) {
        Some(p) => p,
        None => {
            return None;
        },
    };
    let i15 = match scan_exact(s, i14, "}") {
        Some(i) => i,
        None => {
            return None;
        },
    };
    let i16 = match scan_exact(s, i15, ",\"d\":") {
        Some(i) => i,
        None => {
            return None;
        },
    };
    let (digest_chars, i17) = match scan_json_string(s, i16) {
        Some(p) => p,
        None => {
            return None;
        },
    };
    let i18 = match scan_exact(s, i17, "}") {
        Some(i) => i,
        None => {
            return None;
        },
    };
    if i18 != s.len() {
        proof {
            assert(s@.skip(i18 as int).len() > 0);
        }
        return None;
    }
    let claims = Claims {
        uid,
        email: chars_to_string(&email_chars),
        username: chars_to_string(&username_chars),
        role: chars_to_string(&role_chars),
        agency_id,
    };
    proof {
        assert(s@.skip(i18 as int).len() == 0);
    }
    Some((claims, exp, chars_to_string(&nonce_chars), chars_to_string(&digest_chars)))
}

// ---------------------------------------------------------------------------
// Round trip: the strict parser inverts the canonical serialization.
// ---------------------------------------------------------------------------

#[verifier::rlimit(100)]
#[verifier::spinoff_prover]
pub proof fn lemma_claims_roundtrip(c: ClaimsView, rest: Seq<char>)
    requires
        claims_in_range(c),
    ensures
        parse_claims(claims_json(c) + rest) == Some((c, rest)),
{
    reveal_strlit("{\"uid\":");
    reveal_strlit(",\"e\":");
    reveal_strlit(",\"n\":");
    reveal_strlit(",\"r\":");
    reveal_strlit(",\"a\":");
    reveal_strlit("}");
    let l1 = "{\"uid\":"@;
    let l2 = ",\"e\":"@;
    let l3 = ",\"n\":"@;
    let l4 = ",\"r\":"@;
    let la = ",\"a\":"@;
    let rb = "}"@;
    let s = claims_json(c) + rest;
    match c.agency_id {
        None => {
            let t8 = rb + rest;
            let t7 = json_string(c.role) + t8;
            let t6 = l4 + t7;
            let t5 = json_string(c.username) + t6;
            let t4 = l3 + t5;
            let t3 = json_string(c.email) + t4;
            let t2 = l2 + t3;
            let t1 = int_chars(c.uid) + t2;
            assert(s =~= l1 + t1);
            crate::jsontext::lemma_parse_exact_prefix(l1, t1);
            assert(t2[0] == ',');
            crate::jsontext::lemma_parse_int_of_chars(c.uid, t2);
            crate::jsontext::lemma_parse_exact_prefix(l2, t3);
            crate::jsontext::lemma_parse_json_string_of(c.email, t4);
            crate::jsontext::lemma_parse_exact_prefix(l3, t5);
            crate::jsontext::lemma_parse_json_string_of(c.username, t6);
            crate::jsontext::lemma_parse_exact_prefix(l4, t7);
            crate::jsontext::lemma_parse_json_string_of(c.role, t8);
            crate::jsontext::lemma_parse_exact_prefix(rb, rest);
            assert(parse_claims_tail(t8, c.uid, c.email, c.username, c.role) == Some((c, rest)));
        },
        Some(a) => {
            let t10 = rb + rest;
            let t9 = int_chars(a) + t10;
            let t8 = la + t9;
            let t7 = json_string(c.role) + t8;
            let t6 = l4 + t7;
            let t5 = json_string(c.username) + t6;
            let t4 = l3 + t5;
            let t3 = json_string(c.email) + t4;
            let t2 = l2 + t3;
            let t1 = int_chars(c.uid) + t2;
            assert(s =~= l1 + t1);
            crate::jsontext::lemma_parse_exact_prefix(l1, t1);
            assert(t2[0] == ',');
            crate::jsontext::lemma_parse_int_of_chars(c.uid, t2);
            crate::jsontext::lemma_parse_exact_prefix(l2, t3);
            crate::jsontext::lemma_parse_json_string_of(c.email, t4);
            crate::jsontext::lemma_parse_exact_prefix(l3, t5);
            crate::jsontext::lemma_parse_json_string_of(c.username, t6);
            crate::jsontext::lemma_parse_exact_prefix(l4, t7);
            crate::jsontext::lemma_parse_json_string_of(c.role, t8);
            // the closing brace does not match where a tenant field follows
            assert(parse_exact(t8, rb) is None) by {
                assert(t8[0] == ',');
                if parse_exact(t8, rb) is Some {
                    assert(t8.subrange(0, 1)[0] == rb[0]);
                }
            }
            crate::jsontext::lemma_parse_exact_prefix(la, t9);
            assert(t10[0] == '}');
            crate::jsontext::lemma_parse_int_of_chars(a, t10);
            crate::jsontext::lemma_parse_exact_prefix(rb, rest);
            assert(parse_claims_tail(t8, c.uid, c.email, c.username, c.role) == Some((c, rest)));
        },
    }
}

pub proof fn lemma_meta_roundtrip(c: ClaimsView, exp: int, nonce: Seq<char>, rest: Seq<char>)
    requires
        claims_in_range(c),
        -0x8000_0000_0000_0000 <= exp <= 0x7fff_ffff_ffff_ffff,
    ensures
        parse_meta(meta_json(c, exp, nonce) + rest) == Some(((c, exp, nonce), rest)),
{
    reveal_strlit("{\"c\":");
    reveal_strlit(",\"exp\":");
    reveal_strlit(",\"n\":");
    reveal_strlit("}");
    let l1 = "{\"c\":"@;
    let l2 = ",\"exp\":"@;
    let l3 = ",\"n\":"@;
    let rb = "}"@;
    let s = meta_json(c, exp, nonce) + rest;
    let t6 = rb + rest;
    let t5 = json_string(nonce) + t6;
    let t4 = l3 + t5;
    let t3 = int_chars(exp) + t4;
    let t2 = l2 + t3;
    let t1 = claims_json(c) + t2;
    assert(s =~= l1 + t1);
    crate::jsontext::lemma_parse_exact_prefix(l1, t1);
    lemma_claims_roundtrip(c, t2);
    crate::jsontext::lemma_parse_exact_prefix(l2, t3);
    assert(t4[0] == ',');
    crate::jsontext::lemma_parse_int_of_chars(exp, t4);
    crate::jsontext::lemma_parse_exact_prefix(l3, t5);
    crate::jsontext::lemma_parse_json_string_of(nonce, t6);
    crate::jsontext::lemma_parse_exact_prefix(rb, rest);
}

pub proof fn lemma_token_roundtrip(c: ClaimsView, exp: int, nonce: Seq<char>, digest: Seq<char>)
    requires
        claims_in_range(c),
        -0x8000_0000_0000_0000 <= exp <= 0x7fff_ffff_ffff_ffff,
    ensures
        parse_session_token(token_json(c, exp, nonce, digest)) == Some((c, exp, nonce, digest)),
{
    reveal_strlit("{\"m\":");
    reveal_strlit(",\"d\":");
    reveal_strlit("}");
    let l1 = "{\"m\":"@;
    let l2 = ",\"d\":"@;
    let rb = "}"@;
    let s = token_json(c, exp, nonce, digest);
    let t5 = Seq::<char>::empty();
    let t4 = rb + t5;
    let t3 = json_string(digest) + t4;
    let t2 = l2 + t3;
    let t1 = meta_json(c, exp, nonce) + t2;
    assert(s =~= l1 + t1);
    crate::jsontext::lemma_parse_exact_prefix(l1, t1);
    lemma_meta_roundtrip(c, exp, nonce, t2);
    crate::jsontext::lemma_parse_exact_prefix(l2, t3);
    crate::jsontext::lemma_parse_json_string_of(digest, t4);
    crate::jsontext::lemma_parse_exact_prefix(rb, t5);
}

} // verus!
