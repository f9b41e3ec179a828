use vstd::prelude::*;

use crate::errors::CryptoError;
use crate::strutil::chars_to_string;

verus! {

/// The lower-case hex digit for a nibble.
pub open spec fn hex_digit(n: u8) -> char {
    if n < 10 {
        ((48 + n) as u8) as char
    } else {
        ((87 + n) as u8) as char
    }
}

/// The lower-case hex rendering of a byte sequence: two digits per byte,
/// high nibble first.
pub open spec fn hex_of(bytes: Seq<u8>) -> Seq<char> {
    Seq::new(
        bytes.len() * 2,
        |i: int|
            if i % 2 == 0 {
                hex_digit(bytes[i / 2] >> 4u8)
            } else {
                hex_digit(bytes[i / 2] & 0xfu8)
            },
    )
}

pub(crate) fn hex_digit_exec(n: u8) -> (c: char)
    requires
        n < 16,
    ensures
        c == hex_digit(n),
{
    if n < 10 {
        (48 + n) as char
    } else {
        (87 + n) as char
    }
}

/// Renders a byte buffer as lower-case hex.
pub fn buffer_to_hex(buffer: &[u8]) -> (r: String)
    ensures
        r@ == hex_of(buffer@),
{
    let n = buffer.len();
    let mut out: Vec<char> = Vec::new();
    let mut i: usize = 0;
    while i < n
        invariant
            n == buffer@.len(),
            i <= n,
            out@.len() == 2 * i,
            forall|j: int| 0 <= j < 2 * i ==> out@[j] == hex_of(buffer@)[j],
        decreases n - i,
    {
        let b = buffer[i];
        proof {
            assert((b >> 4u8) < 16 && (b & 0xfu8) < 16) by (bit_vector);
        }
        out.push(hex_digit_exec(b >> 4));
        out.push(hex_digit_exec(b & 0xf));
        i += 1;
    }
    proof {
        assert(out@ =~= hex_of(buffer@));
    }
    chars_to_string(&out)
}

/// Length-checked conversion of a byte vector into a 32-byte array.
///
/// Exactly the vectors of length 32 convert; anything else is a typed
/// length error, never a reinterpretation of memory.
pub fn vec_to_array_32(vec: Vec<u8>) -> (r: Result<[u8; 32], CryptoError>)
    ensures
        vec@.len() == 32 ==> (r matches Ok(a) && a@ == vec@),
        vec@.len() != 32 ==> r == Result::<[u8; 32], CryptoError>::Err(
            CryptoError::IncongruentLength(32, vec@.len() as usize),
        ),
{
    if vec.len() != 32 {
        return Err(CryptoError::IncongruentLength(32, vec.len()));
    }
    let mut arr: [u8; 32] = [0u8; 32];
    let mut i: usize = 0;
    while i < 32
        invariant
            i <= 32,
            vec@.len() == 32,
            arr@.len() == 32,
            forall|j: int| 0 <= j < i ==> arr@[j] == vec@[j],
        decreases 32 - i,
    {
        arr[i] = vec[i];
        i += 1;
    }
    proof {
        assert(arr@ =~= vec@);
    }
    Ok(arr)
}

/// Length-checked conversion of a byte vector into a 64-byte array.
pub fn vec_to_array_64(vec: Vec<u8>) -> (r: Result<[u8; 64], CryptoError>)
    ensures
        vec@.len() == 64 ==> (r matches Ok(a) && a@ == vec@),
        vec@.len() != 64 ==> r == Result::<[u8; 64], CryptoError>::Err(
            CryptoError::IncongruentLength(64, vec@.len() as usize),
        ),
{
    if vec.len() != 64 {
        return Err(CryptoError::IncongruentLength(64, vec.len()));
    }
    let mut arr: [u8; 64] = [0u8; 64];
    let mut i: usize = 0;
    while i < 64
        invariant
            i <= 64,
            vec@.len() == 64,
            arr@.len() == 64,
            forall|j: int| 0 <= j < i ==> arr@[j] == vec@[j],
        decreases 64 - i,
    {
        arr[i] = vec[i];
        i += 1;
    }
    proof {
        assert(arr@ =~= vec@);
    }
    Ok(arr)
}

} // verus!
