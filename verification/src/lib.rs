//! Authentication core: validation of third-party bearer tokens against a
//! time-bounded cache of remote verification keys, and issuance and
//! verification of first-party signed session tokens with refresh-driven
//! rotation.
//!
//! The wire formats are handled by verified code throughout: a strict
//! canonical JSON codec for the session envelope, proved to round-trip, and
//! a JSON object scanner for token headers, payloads and fetched key sets.
//! Outside crates do only what cannot be computed here — base64, Ed25519,
//! RSA, randomness, the clock — behind small trusted contracts.

pub mod b64;
pub mod cast;
pub mod claims;
pub mod ed25519;
pub mod errors;
pub mod generate;
pub mod jsonscan;
pub mod jsontext;
pub mod jwk;
pub mod key_provider;
pub mod refresh_tokens;
pub mod session_json;
pub mod structure;
pub mod strutil;
pub mod token;
pub mod unverified_token;
pub mod user;
pub mod util;
