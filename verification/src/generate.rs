use vstd::prelude::*;

use rand::distributions::DistString as _;
use rand::RngCore as _;

use crate::cast::{buffer_to_hex, hex_of};

verus! {

/// Relies on `rand::thread_rng` and `RngCore::fill_bytes`: fills a buffer of
/// the requested length with random bytes.
#[verifier::external_body]
fn random_bytes(n: usize) -> (r: Vec<u8>)
    ensures
        r@.len() == n,
{
    let mut buf = vec![0u8; n];
    rand::thread_rng().fill_bytes(&mut buf);
    buf
}

/// Relies on `rand::thread_rng` and `RngCore::next_u32`: one random 32-bit value.
#[verifier::external_body]
fn random_u32() -> u32 {
    rand::thread_rng().next_u32()
}

/// An ASCII letter or digit.
pub open spec fn is_alphanumeric_char(c: char) -> bool {
    ('0' <= c && c <= '9') || ('a' <= c && c <= 'z') || ('A' <= c && c <= 'Z')
}

/// Relies on `rand::distributions::Alphanumeric` with `DistString`: a
/// string of exactly `n` characters drawn from a-z, A-Z and 0-9.
#[verifier::external_body]
fn random_alphanumeric(n: usize) -> (r: String)
    ensures
        r@.len() == n,
        forall|i: int| 0 <= i < n ==> is_alphanumeric_char(#[trigger] r@[i]),
{
    rand::distributions::Alphanumeric.sample_string(&mut rand::thread_rng(), n)
}

/// A per-issuance nonce: a random 32-bit value, little-endian, in hex.
pub fn generate_nonce() -> (r: String)
    ensures
        r@.len() == 8,
        exists|b: Seq<u8>| b.len() == 4 && r@ == hex_of(b),
{
    let n = random_u32();
    let bytes = vstd::bytes::u32_to_le_bytes(n);
    buffer_to_hex(bytes.as_slice())
}

/// A random 128-bit identifier in hex.
pub fn generate_id() -> (r: String)
    ensures
        r@.len() == 32,
        exists|b: Seq<u8>| b.len() == 16 && r@ == hex_of(b),
{
    let bytes = random_bytes(16);
    buffer_to_hex(bytes.as_slice())
}

/// A short random name: three random bytes in hex.
pub fn generate_name() -> (r: String)
    ensures
        r@.len() == 6,
        exists|b: Seq<u8>| b.len() == 3 && r@ == hex_of(b),
{
    let bytes = random_bytes(3);
    buffer_to_hex(bytes.as_slice())
}

/// A random alphanumeric string of the requested length, as used for
/// refresh credentials.
pub fn generate_random_string(n: usize) -> (r: String)
    ensures
        r@.len() == n,
        forall|i: int| 0 <= i < n ==> is_alphanumeric_char(#[trigger] r@[i]),
{
    random_alphanumeric(n)
}

/// 32 random bytes of salt.
pub fn generate_salt() -> (r: Vec<u8>)
    ensures
        r@.len() == 32,
{
    random_bytes(32)
}

} // verus!
