use vstd::prelude::*;

use base64::Engine as _;

verus! {

/// The base64url (no padding) rendering of a byte sequence, as the
/// `base64` crate's url-safe no-pad engine produces it.
pub uninterp spec fn b64_encoding(bytes: Seq<u8>) -> Seq<char>;

/// The byte sequence a character sequence decodes to under the `base64`
/// crate's url-safe no-pad engine, or `None` where it rejects the input.
pub uninterp spec fn b64_decoding(s: Seq<char>) -> Option<Seq<u8>>;

/// Relies on `base64`'s `URL_SAFE_NO_PAD` engine: encoding is a function
/// of the bytes alone, emits four characters for every three bytes
/// (rounded up, unpadded), and decoding the result restores the bytes.
#[verifier::external_body]
pub(crate) fn b64_encode(bytes: &[u8]) -> (r: String)
    ensures
        r@ == b64_encoding(bytes@),
        b64_decoding(r@) == Some(bytes@),
        r@.len() == (bytes@.len() * 4 + 2) / 3,
{
    base64::engine::general_purpose::URL_SAFE_NO_PAD.encode(bytes)
}

/// Relies on `base64`'s `URL_SAFE_NO_PAD` engine: decoding is a function
/// of the input characters alone; invalid input is a typed error.
#[verifier::external_body]
pub(crate) fn b64_decode(input: &str) -> (r: Option<Vec<u8>>)
    ensures
        match r {
            Some(v) => b64_decoding(input@) == Some(v@),
            None => b64_decoding(input@) is None,
        },
{
    match base64::engine::general_purpose::URL_SAFE_NO_PAD.decode(input) {
        Ok(v) => Some(v),
        Err(_) => None,
    }
}

} // verus!
