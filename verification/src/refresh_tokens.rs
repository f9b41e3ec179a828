use vstd::prelude::*;

use crate::claims::{claims_of_essentials, spec_verify_session, Claims, SessionOutcome,
    SESSION_TTL_SECS};
use crate::ed25519::KeyStore;
use crate::generate::{generate_random_string, is_alphanumeric_char};
use crate::user::UserEssentials;

verus! {

/// The length of a refresh credential, in characters.
pub const REFRESH_CREDENTIAL_LEN: usize = 32;

/// A fresh opaque refresh credential, to be stored against exactly one
/// user id and consumed on its first successful rotation.
pub fn new_credential() -> (r: String)
    ensures
        r@.len() == REFRESH_CREDENTIAL_LEN,
        forall|i: int| 0 <= i < r@.len() ==> is_alphanumeric_char(#[trigger] r@[i]),
{
    generate_random_string(REFRESH_CREDENTIAL_LEN)
}

/// The computational half of a rotation: from the attributes the store
/// holds for the redeemed credential, mint a fresh session token and a
/// fresh refresh credential.
///
/// The caller owns the store half: it must delete the redeemed credential's
/// record and insert the new credential, in that order, and only on this
/// function's return. The new token verifies to exactly the store's current
/// claims for the user until its expiry.
pub fn mint_pair(essentials: &UserEssentials, key_store: &KeyStore, now: i64) -> (r: (
    String,
    String,
))
    requires
        key_store.wf(),
        now <= i64::MAX - SESSION_TTL_SECS,
    ensures
        forall|t: int|
            #[trigger] spec_verify_session(r.0@, key_store.public_key@, t) == (if t <= now
                + SESSION_TTL_SECS {
                SessionOutcome::Valid(claims_of_essentials(*essentials))
            } else {
                SessionOutcome::Expired(claims_of_essentials(*essentials))
            }),
        r.1@.len() == REFRESH_CREDENTIAL_LEN,
        forall|i: int| 0 <= i < r.1@.len() ==> is_alphanumeric_char(#[trigger] r.1@[i]),
{
    let claims = Claims::from_user_essentials(essentials);
    let access_token = claims.create_token(key_store, now);
    let refresh_credential = new_credential();
    (access_token, refresh_credential)
}

} // verus!
