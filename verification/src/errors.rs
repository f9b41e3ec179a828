use vstd::prelude::*;

use crate::structure::Algorithm;

verus! {

/// Failures of the low-level key material handling.
#[derive(Debug, Clone, PartialEq, Eq)]
pub enum CryptoError {
    /// A byte buffer had the wrong length: expected, actual.
    IncongruentLength(usize, usize),
    /// Persisted secret-key material whose trailing half is not the
    /// public key of its seed: the public half cannot be recovered.
    ExtractPubkeyError(String),
}

/// Failures of bearer-token validation against the remote key set.
///
/// Structural, semantic, temporal, cryptographic and retrieval failures are
/// kept apart so that a caller can react to each kind differently.
#[derive(Debug, Clone, PartialEq, Eq)]
pub enum GoogleError {
    /// The token is structurally or semantically unacceptable.
    InvalidToken(&'static str),
    /// A JSON document inside the token could not be read.
    SerdeError(String),
    /// The verification key could not be retrieved at all.
    RetrieveKeyFailure,
    /// The key names an algorithm with no implemented handler.
    UnsupportedAlgorithm(Algorithm),
    /// The token's expiry lies in the past.
    Expired,
    /// The signature does not verify under the named key.
    SignatureMismatch,
}

/// Failures of first-party session-token verification.
#[derive(Debug, Clone, PartialEq, Eq)]
pub enum AuthError {
    /// No token was supplied, or it is structurally unacceptable.
    InvalidToken,
    /// A segment was not valid base64url or not valid UTF-8.
    DecodeError,
    /// The envelope JSON could not be read.
    JsonError,
    /// The token's expiry lies in the past and no rotation happened.
    TokenExpired,
    /// The digest does not verify under the service's key.
    InvalidSignature,
    /// An external collaborator (the user store) failed.
    StandardError(String),
}

} // verus!
