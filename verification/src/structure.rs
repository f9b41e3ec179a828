use vstd::prelude::*;

verus! {

/// Signature algorithm tag carried by a remote verification key.
///
/// The set of tags is closed: dispatching over it is an exhaustive match,
/// so adding a tag forces every dispatch site to be revisited.
#[derive(Clone, Copy, PartialEq, Eq, Debug, Structural)]
pub enum Algorithm {
    RS256,
    RS384,
    RS512,
    HS256,
    HS384,
    HS512,
    ES256,
    ES384,
    ES512,
}

/// The part of a bearer token's header that the validator reads:
/// the identifier of the key that signed the token.
#[derive(Clone, Debug)]
pub struct Header {
    pub key_id: String,
}

} // verus!
