use vstd::prelude::*;

use crate::b64::{b64_decode, b64_decoding};
use crate::errors::GoogleError;
use crate::jsonscan::{
    elems_view, fields_view, lookup_field, parse_flat_array, parse_flat_object, scan_flat_array,
    scan_flat_object, strip_json_ws, strip_ws_from, FieldView, JsonField,
};
use crate::structure::Algorithm;
use crate::strutil::{str_eq, str_to_chars};
use crate::token::str_member;

verus! {

/// One remote verification key: its identifier, its algorithm tag, and its
/// decoded RSA public material (modulus and exponent).
#[derive(Debug, Clone)]
pub struct JsonWebKey {
    pub key_id: String,
    pub algorithm: Algorithm,
    pub modulus: Vec<u8>,
    pub exponent: Vec<u8>,
}

/// The mathematical shape of one remote verification key.
pub struct JwkView {
    pub key_id: Seq<char>,
    pub algorithm: Algorithm,
    pub modulus: Seq<u8>,
    pub exponent: Seq<u8>,
}

impl View for JsonWebKey {
    type V = JwkView;

    open spec fn view(&self) -> JwkView {
        JwkView {
            key_id: self.key_id@,
            algorithm: self.algorithm,
            modulus: self.modulus@,
            exponent: self.exponent@,
        }
    }
}

/// The algorithm tag a JSON `alg` name denotes.
pub open spec fn algorithm_of_name(s: Seq<char>) -> Option<Algorithm> {
    if s == "RS256"@ {
        Some(Algorithm::RS256)
    } else if s == "RS384"@ {
        Some(Algorithm::RS384)
    } else if s == "RS512"@ {
        Some(Algorithm::RS512)
    } else if s == "HS256"@ {
        Some(Algorithm::HS256)
    } else if s == "HS384"@ {
        Some(Algorithm::HS384)
    } else if s == "HS512"@ {
        Some(Algorithm::HS512)
    } else if s == "ES256"@ {
        Some(Algorithm::ES256)
    } else if s == "ES384"@ {
        Some(Algorithm::ES384)
    } else if s == "ES512"@ {
        Some(Algorithm::ES512)
    } else {
        None
    }
}

/// Maps a JSON `alg` name to its algorithm tag.
pub fn algorithm_from_name(name: &str) -> (r: Option<Algorithm>)
    ensures
        r == algorithm_of_name(name@),
{
    if str_eq(name, "RS256") {
        Some(Algorithm::RS256)
    } else if str_eq(name, "RS384") {
        Some(Algorithm::RS384)
    } else if str_eq(name, "RS512") {
        Some(Algorithm::RS512)
    } else if str_eq(name, "HS256") {
        Some(Algorithm::HS256)
    } else if str_eq(name, "HS384") {
        Some(Algorithm::HS384)
    } else if str_eq(name, "HS512") {
        Some(Algorithm::HS512)
    } else if str_eq(name, "ES256") {
        Some(Algorithm::ES256)
    } else if str_eq(name, "ES384") {
        Some(Algorithm::ES384)
    } else if str_eq(name, "ES512") {
        Some(Algorithm::ES512)
    } else {
        None
    }
}

/// The key a well-typed scanned key object denotes: identifier, a known
/// algorithm name, and modulus and exponent that decode from base64url.
/// Malformed material yields no key.
pub open spec fn key_from_fields(ms: Seq<(Seq<char>, FieldView)>) -> Option<JwkView> {
    if str_member(ms, "kid"@) is Some && str_member(ms, "alg"@) is Some && algorithm_of_name(
        str_member(ms, "alg"@).unwrap(),
    ) is Some && str_member(ms, "n"@) is Some && b64_decoding(str_member(ms, "n"@).unwrap())
        is Some && str_member(ms, "e"@) is Some && b64_decoding(str_member(ms, "e"@).unwrap())
        is Some {
        Some(
            JwkView {
                key_id: str_member(ms, "kid"@).unwrap(),
                algorithm: algorithm_of_name(str_member(ms, "alg"@).unwrap()).unwrap(),
                modulus: b64_decoding(str_member(ms, "n"@).unwrap()).unwrap(),
                exponent: b64_decoding(str_member(ms, "e"@).unwrap()).unwrap(),
            },
        )
    } else {
        None
    }
}

/// The key one raw array element denotes.
pub open spec fn key_from_chars(s: Seq<char>) -> Option<JwkView> {
    match parse_flat_object(s) {
        Some(ms) => key_from_fields(ms),
        None => None,
    }
}

/// The keys a captured element list denotes; one bad element spoils the
/// whole set.
pub open spec fn keys_from_elems(es: Seq<FieldView>) -> Option<Seq<JwkView>>
    decreases es.len(),
{
    if es.len() == 0 {
        Some(Seq::empty())
    } else {
        match es[0] {
            FieldView::FRaw(t) => match key_from_chars(t) {
                Some(k) => match keys_from_elems(es.drop_first()) {
                    Some(ks) => Some(seq![k] + ks),
                    None => None,
                },
                None => None,
            },
            _ => None,
        }
    }
}

/// The key set a fetched response body denotes: a JSON object whose
/// `keys` member is an array of key objects.
pub open spec fn keyset_from_chars(s: Seq<char>) -> Option<Seq<JwkView>> {
    let stripped = strip_ws_from(s, 0, false, false);
    match parse_flat_object(stripped) {
        None => None,
        Some(ms) => match lookup_field(ms, "keys"@) {
            Some(FieldView::FRaw(arr)) => match parse_flat_array(arr) {
                Some(es) => keys_from_elems(es),
                None => None,
            },
            _ => None,
        },
    }
}

/// An ordered collection of remote verification keys, replaced wholesale
/// on every successful fetch.
#[derive(Debug, Clone)]
pub struct JsonWebKeySet {
    pub keys: Vec<JsonWebKey>,
}

/// The view of a key list.
pub open spec fn keys_view(v: Seq<JsonWebKey>) -> Seq<JwkView> {
    v.map_values(|k: JsonWebKey| k@)
}

impl View for JsonWebKeySet {
    type V = Seq<JwkView>;

    open spec fn view(&self) -> Seq<JwkView> {
        keys_view(self.keys@)
    }
}

/// The first key with the given identifier.
pub open spec fn spec_get_key(ks: Seq<JwkView>, key_id: Seq<char>) -> Option<JwkView>
    decreases ks.len(),
{
    if ks.len() == 0 {
        None
    } else if ks[0].key_id == key_id {
        Some(ks[0])
    } else {
        spec_get_key(ks.drop_first(), key_id)
    }
}

proof fn lemma_get_key_skip(ks: Seq<JwkView>, key_id: Seq<char>, k: int)
    requires
        0 <= k <= ks.len(),
        forall|q: int| 0 <= q < k ==> (#[trigger] ks[q]).key_id != key_id,
    ensures
        spec_get_key(ks, key_id) == spec_get_key(ks.skip(k), key_id),
    decreases k,
{
    if k > 0 {
        assert(ks[0].key_id != key_id);
        assert(ks.drop_first() =~= ks.skip(1));
        assert forall|q: int| 0 <= q < k - 1 implies (#[trigger] ks.skip(1)[q]).key_id != key_id by {
            assert(ks.skip(1)[q] == ks[q + 1]);
        }
        lemma_get_key_skip(ks.skip(1), key_id, k - 1);
        assert(ks.skip(1).skip(k - 1) =~= ks.skip(k));
    } else {
        assert(ks.skip(0) =~= ks);
    }
}

fn key_from_object(fields: &Vec<(String, JsonField)>) -> (r: Option<JsonWebKey>)
    ensures
        match r {
            Some(k) => key_from_fields(fields_view(fields@)) == Some(k@),
            None => key_from_fields(fields_view(fields@)) is None,
        },
{
    let key_id = match crate::token::get_str_member(fields, "kid") {
        Some(s) => s,
        None => {
            return None;
        },
    };
    let alg_name = match crate::token::get_str_member(fields, "alg") {
        Some(s) => s,
        None => {
            return None;
        },
    };
    let algorithm = match algorithm_from_name(alg_name.as_str()) {
        Some(a) => a,
        None => {
            return None;
        },
    };
    let n_text = match crate::token::get_str_member(fields, "n") {
        Some(s) => s,
        None => {
            return None;
        },
    };
    let modulus = match b64_decode(n_text.as_str()) {
        Some(b) => b,
        None => {
            return None;
        },
    };
    let e_text = match crate::token::get_str_member(fields, "e") {
        Some(s) => s,
        None => {
            return None;
        },
    };
    let exponent = match b64_decode(e_text.as_str()) {
        Some(b) => b,
        None => {
            return None;
        },
    };
    Some(JsonWebKey { key_id, algorithm, modulus, exponent })
}

impl JsonWebKeySet {
    /// Parses a fetched response body into a key set.
    #[verifier::loop_isolation(false)]
    pub fn from_json_text(text: &str) -> (r: Option<JsonWebKeySet>)
        ensures
            match r {
                Some(set) => keyset_from_chars(text@) == Some(set@),
                None => keyset_from_chars(text@) is None,
            },
    {
        let raw_chars = str_to_chars(text);
        let stripped = strip_json_ws(&raw_chars);
        let fields = match scan_flat_object(&stripped) {
            Some(f) => f,
            None => {
                return None;
            },
        };
        let arr_text = match crate::jsonscan::find_field(&fields, "keys") {
            Some(JsonField::JRaw(t)) => t,
            _ => {
                return None;
            },
        };
        let arr_chars = str_to_chars(arr_text.as_str());
        let elems = match scan_flat_array(&arr_chars) {
            Some(es) => es,
            None => {
                return None;
            },
        };
        let ghost ev = elems_view(elems@);
        let mut keys: Vec<JsonWebKey> = Vec::new();
        let mut k: usize = 0;
        proof {
            assert(ev.skip(0) =~= ev);
        }
        while k < elems.len()
            invariant
                k <= elems@.len(),
                ev == elems_view(elems@),
                keys_from_elems(ev) == (match keys_from_elems(ev.skip(k as int)) {
                    Some(ks) => Some::<Seq<JwkView>>(keys_view(keys@) + ks),
                    None => None::<Seq<JwkView>>,
                }),
            decreases elems@.len() - k,
        {
            let ghost rem = ev.skip(k as int);
            proof {
                assert(rem[0] == ev[k as int]);
                assert(rem.drop_first() =~= ev.skip(k + 1));
            }
            let obj_text = match &elems[k] {
                JsonField::JRaw(t) => t,
                _ => {
                    return None;
                },
            };
            let obj_chars = str_to_chars(obj_text.as_str());
            let obj_fields = match scan_flat_object(&obj_chars) {
                Some(f) => f,
                None => {
                    return None;
                },
            };
            let key = match key_from_object(&obj_fields) {
                Some(key) => key,
                None => {
                    return None;
                },
            };
            let ghost before = keys@;
            keys.push(key);
            proof {
                assert(keys_view(keys@) =~= keys_view(before).push(keys@.last()@));
                if keys_from_elems(ev.skip(k + 1)) is Some {
                    let tail = keys_from_elems(ev.skip(k + 1)).unwrap();
                    assert(keys_view(before) + (seq![keys@.last()@] + tail) =~= keys_view(keys@)
                        + tail);
                }
            }
            k += 1;
        }
        proof {
            assert(ev.skip(k as int).len() == 0);
            assert(keys_view(keys@) + Seq::<JwkView>::empty() =~= keys_view(keys@));
        }
        Some(JsonWebKeySet { keys })
    }

    /// Looks a key up by its identifier.
    #[verifier::loop_isolation(false)]
    pub fn get_key(&self, key_id: &str) -> (r: Option<JsonWebKey>)
        ensures
            match r {
                Some(k) => spec_get_key(self@, key_id@) == Some(k@),
                None => spec_get_key(self@, key_id@) is None,
            },
    {
        let ghost ks = self@;
        let mut k: usize = 0;
        while k < self.keys.len()
            invariant
                k <= self.keys@.len(),
                ks == self@,
                forall|q: int| 0 <= q < k ==> (#[trigger] ks[q]).key_id != key_id@,
            decreases self.keys@.len() - k,
        {
            if str_eq(self.keys[k].key_id.as_str(), key_id) {
                proof {
                    lemma_get_key_skip(ks, key_id@, k as int);
                    assert(ks.skip(k as int)[0] == ks[k as int]);
                }
                let found = &self.keys[k];
                return Some(
                    JsonWebKey {
                        key_id: found.key_id.clone(),
                        algorithm: found.algorithm,
                        modulus: found.modulus.clone(),
                        exponent: found.exponent.clone(),
                    },
                );
            }
            k += 1;
        }
        proof {
            lemma_get_key_skip(ks, key_id@, k as int);
            assert(ks.skip(k as int).len() == 0);
        }
        None
    }
}

impl JsonWebKeySet {
    /// A copy of the set that the contracts can see through.
    pub fn clone_set(&self) -> (r: JsonWebKeySet)
        ensures
            r@ == self@,
    {
        let mut keys: Vec<JsonWebKey> = Vec::new();
        let mut k: usize = 0;
        while k < self.keys.len()
            invariant
                k <= self.keys@.len(),
                keys@.len() == k,
                forall|q: int| 0 <= q < k ==> (#[trigger] keys@[q])@ == self.keys@[q]@,
            decreases self.keys@.len() - k,
        {
            let found = &self.keys[k];
            keys.push(
                JsonWebKey {
                    key_id: found.key_id.clone(),
                    algorithm: found.algorithm,
                    modulus: found.modulus.clone(),
                    exponent: found.exponent.clone(),
                },
            );
            k += 1;
        }
        let r = JsonWebKeySet { keys };
        proof {
            assert(r@ =~= self@);
        }
        r
    }
}

/// Whether the `rsa` crate's RSASSA-PKCS1-v1_5 verification with SHA-256
/// accepts `sig` as a signature on `msg` under the public key given by
/// big-endian `modulus` and `exponent` bytes. The outcome is a function of
/// these four arguments alone; material the crate rejects reads as a
/// rejected signature.
pub uninterp spec fn rsa_pkcs1v15_sha256_verifies(
    modulus: Seq<u8>,
    exponent: Seq<u8>,
    msg: Seq<u8>,
    sig: Seq<u8>,
) -> bool;

/// Relies on `rsa`'s `pkcs1v15::VerifyingKey` over SHA-256: key
/// construction, signature decoding and the verification itself read only
/// the four byte inputs, and every failure — an unacceptable modulus or
/// exponent as much as a wrong digest — is a rejection, never a panic.
#[verifier::external_body]
fn rsa_verify_sha256(modulus: &[u8], exponent: &[u8], message: &[u8], signature: &[u8]) -> (r:
    bool)
    ensures
        r == rsa_pkcs1v15_sha256_verifies(modulus@, exponent@, message@, signature@),
{
    let n = rsa::BigUint::from_bytes_be(modulus);
    let e = rsa::BigUint::from_bytes_be(exponent);
    let key = match rsa::RsaPublicKey::new(n, e) {
        Ok(k) => k,
        Err(_) => return false,
    };
    let verifying_key = rsa::pkcs1v15::VerifyingKey::<sha2::Sha256>::new(key);
    let sig = match rsa::pkcs1v15::Signature::try_from(signature) {
        Ok(s) => s,
        Err(_) => return false,
    };
    rsa::signature::Verifier::verify(&verifying_key, message, &sig).is_ok()
}

/// What verifying a signature under a key yields: an RS256 key decides by
/// the RSA check over its material — acceptance, or the distinct
/// cryptographic mismatch; every other declared algorithm has no handler
/// and reports itself as unsupported.
pub open spec fn spec_jwk_verify(k: JwkView, signed: Seq<u8>, sig: Seq<u8>) -> Result<
    (),
    GoogleError,
> {
    match k.algorithm {
        Algorithm::RS256 => if rsa_pkcs1v15_sha256_verifies(k.modulus, k.exponent, signed, sig) {
            Ok(())
        } else {
            Err(GoogleError::SignatureMismatch)
        },
        Algorithm::RS384 => Err(GoogleError::UnsupportedAlgorithm(Algorithm::RS384)),
        Algorithm::RS512 => Err(GoogleError::UnsupportedAlgorithm(Algorithm::RS512)),
        Algorithm::HS256 => Err(GoogleError::UnsupportedAlgorithm(Algorithm::HS256)),
        Algorithm::HS384 => Err(GoogleError::UnsupportedAlgorithm(Algorithm::HS384)),
        Algorithm::HS512 => Err(GoogleError::UnsupportedAlgorithm(Algorithm::HS512)),
        Algorithm::ES256 => Err(GoogleError::UnsupportedAlgorithm(Algorithm::ES256)),
        Algorithm::ES384 => Err(GoogleError::UnsupportedAlgorithm(Algorithm::ES384)),
        Algorithm::ES512 => Err(GoogleError::UnsupportedAlgorithm(Algorithm::ES512)),
    }
}

impl JsonWebKey {
    /// Checks a signature over signed bytes under this key's algorithm.
    ///
    /// Dispatch is an exhaustive match over the closed algorithm set, so
    /// adding a tag forces this site to be revisited. RS256 — the
    /// algorithm the remote key sets carry — verifies through the RSA
    /// backend; the remaining tags have no handler wired in and report
    /// themselves as unsupported rather than failing open or closed.
    pub fn verify(&self, signed: &[u8], signature: &[u8]) -> (r: Result<(), GoogleError>)
        ensures
            r == spec_jwk_verify(self@, signed@, signature@),
    {
        match self.algorithm {
            Algorithm::RS256 => {
                if rsa_verify_sha256(
                    self.modulus.as_slice(),
                    self.exponent.as_slice(),
                    signed,
                    signature,
                ) {
                    Ok(())
                } else {
                    Err(GoogleError::SignatureMismatch)
                }
            },
            Algorithm::RS384 => Err(GoogleError::UnsupportedAlgorithm(Algorithm::RS384)),
            Algorithm::RS512 => Err(GoogleError::UnsupportedAlgorithm(Algorithm::RS512)),
            Algorithm::HS256 => Err(GoogleError::UnsupportedAlgorithm(Algorithm::HS256)),
            Algorithm::HS384 => Err(GoogleError::UnsupportedAlgorithm(Algorithm::HS384)),
            Algorithm::HS512 => Err(GoogleError::UnsupportedAlgorithm(Algorithm::HS512)),
            Algorithm::ES256 => Err(GoogleError::UnsupportedAlgorithm(Algorithm::ES256)),
            Algorithm::ES384 => Err(GoogleError::UnsupportedAlgorithm(Algorithm::ES384)),
            Algorithm::ES512 => Err(GoogleError::UnsupportedAlgorithm(Algorithm::ES512)),
        }
    }
}

} // verus!
