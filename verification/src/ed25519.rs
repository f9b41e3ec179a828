use vstd::prelude::*;

use crate::b64::{b64_encode, b64_encoding};
use crate::errors::CryptoError;

verus! {

/// The Ed25519 signature the `nacl` crate computes for a message under a
/// 64-byte secret key. Signing in `nacl` is deterministic: the result is a
/// function of message and key alone.
pub uninterp spec fn ed25519_signature(msg: Seq<u8>, skey: Seq<u8>) -> Seq<u8>;

/// Whether the `nacl` crate accepts `sig` as a signature on `msg` under the
/// 32-byte public key `pkey`. Verification reads only its three arguments.
pub uninterp spec fn ed25519_verifies(sig: Seq<u8>, msg: Seq<u8>, pkey: Seq<u8>) -> bool;

/// The public key the `nacl` crate derives from a 32-byte seed.
pub uninterp spec fn ed25519_pkey_of_seed(seed: Seq<u8>) -> Seq<u8>;

/// Genuine Ed25519 key material: a 64-byte secret key whose trailing half
/// really is the public key the `nacl` crate derives from its leading
/// 32-byte seed. Arbitrary 64 bytes — a corrupted key file, say — carry a
/// trailing half unrelated to the seed, and signatures made under such
/// material do not verify.
pub open spec fn ed25519_genuine_keypair(skey: Seq<u8>) -> bool {
    &&& skey.len() == 64
    &&& skey.subrange(32, 64) == ed25519_pkey_of_seed(skey.subrange(0, 32))
}

/// Relies on `nacl::sign::signature`: with a 64-byte secret key and a
/// non-empty message it returns the deterministic 64-byte Ed25519
/// signature. The signing scalar comes from the key's leading 32 bytes
/// while `nacl::sign::verify` checks against the supplied public key, so
/// the produced signature is promised to verify under the key's trailing
/// half only for genuine key material.
#[verifier::external_body]
fn nacl_signature(msg: &[u8], skey: &[u8]) -> (r: Vec<u8>)
    requires
        skey@.len() == 64,
        msg@.len() > 0,
    ensures
        r@ == ed25519_signature(msg@, skey@),
        r@.len() == 64,
        ed25519_genuine_keypair(skey@) ==> ed25519_verifies(r@, msg@, skey@.subrange(32, 64)),
{
    nacl::sign::signature(msg, skey).unwrap()
}

/// Relies on `nacl::sign::verify`: with a 32-byte public key it returns a
/// boolean that depends only on signature, message and key.
#[verifier::external_body]
fn nacl_verify(sig: &[u8], msg: &[u8], pkey: &[u8]) -> (r: bool)
    requires
        pkey@.len() == 32,
    ensures
        r == ed25519_verifies(sig@, msg@, pkey@),
{
    match nacl::sign::verify(sig, msg, pkey) {
        Ok(b) => b,
        Err(_) => false,
    }
}

/// Relies on `nacl::sign::generate_keypair`: from a 32-byte seed it derives
/// a public key and lays the secret key out as `seed || public_key`.
#[verifier::external_body]
fn nacl_generate_keypair(seed: &[u8]) -> (r: (Vec<u8>, Vec<u8>))
    requires
        seed@.len() == 32,
    ensures
        r.1@ == ed25519_pkey_of_seed(seed@),
        r.1@.len() == 32,
        r.0@ == seed@ + r.1@,
{
    let kp = nacl::sign::generate_keypair(seed);
    (kp.skey.to_vec(), kp.pkey.to_vec())
}

/// A long-lived Ed25519 signing keypair.
///
/// The public half is always the last 32 bytes of the secret half, as the
/// `nacl` crate lays keys out, and the pair is genuine: the trailing half
/// is derived from the leading seed. `wf` captures both, and every
/// constructor establishes them — persisted material whose halves do not
/// match is rejected, never accepted as a store that cannot sign.
pub struct KeyStore {
    pub secret_key: Vec<u8>,
    pub public_key: Vec<u8>,
}

impl KeyStore {
    /// Well-formed key material: a 64-byte genuine secret key whose
    /// trailing half is the stored 32-byte public key.
    pub open spec fn wf(&self) -> bool {
        &&& self.secret_key@.len() == 64
        &&& self.public_key@.len() == 32
        &&& self.public_key@ == self.secret_key@.subrange(32, 64)
        &&& ed25519_genuine_keypair(self.secret_key@)
    }

    /// Rebuilds the store from persisted 64-byte secret-key material. The
    /// public half is re-derived from the stored seed; material whose
    /// trailing half does not match — a corrupt key file — is rejected.
    pub fn from_secret_key(secret_key: Vec<u8>) -> (r: Result<KeyStore, CryptoError>)
        ensures
            secret_key@.len() != 64 ==> r == Result::<KeyStore, CryptoError>::Err(
                CryptoError::IncongruentLength(64, secret_key@.len() as usize),
            ),
            secret_key@.len() == 64 ==> match r {
                Ok(ks) => {
                    &&& ed25519_genuine_keypair(secret_key@)
                    &&& ks.wf()
                    &&& ks.secret_key@ == secret_key@
                },
                Err(e) => !ed25519_genuine_keypair(secret_key@) && e matches
                    CryptoError::ExtractPubkeyError(_),
            },
    {
        if secret_key.len() != 64 {
            return Err(CryptoError::IncongruentLength(64, secret_key.len()));
        }
        let mut seed: Vec<u8> = Vec::new();
        let mut i: usize = 0;
        while i < 32
            invariant
                i <= 32,
                secret_key@.len() == 64,
                seed@ =~= secret_key@.subrange(0, i as int),
            decreases 32 - i,
        {
            seed.push(secret_key[i]);
            i += 1;
            proof {
                assert(seed@ =~= secret_key@.subrange(0, i as int));
            }
        }
        let (_, public_key) = nacl_generate_keypair(seed.as_slice());
        let mut j: usize = 0;
        while j < 32
            invariant
                j <= 32,
                secret_key@.len() == 64,
                public_key@ == ed25519_pkey_of_seed(secret_key@.subrange(0, 32)),
                public_key@.len() == 32,
                forall|k: int| 0 <= k < j ==> public_key@[k] == secret_key@[32 + k],
            decreases 32 - j,
        {
            if public_key[j] != secret_key[32 + j] {
                proof {
                    let tail = secret_key@.subrange(32, 64);
                    assert(tail[j as int] != public_key@[j as int]);
                }
                return Err(
                    CryptoError::ExtractPubkeyError(
                        String::from_str("stored public half does not match its seed"),
                    ),
                );
            }
            j += 1;
        }
        proof {
            assert(secret_key@.subrange(32, 64) =~= public_key@);
        }
        Ok(KeyStore { secret_key, public_key })
    }

    /// Builds a fresh store from a 32-byte random seed.
    pub fn from_seed(seed: &[u8]) -> (r: Result<KeyStore, CryptoError>)
        ensures
            seed@.len() == 32 ==> (r matches Ok(ks) && ks.wf() && ks.public_key@
                == ed25519_pkey_of_seed(seed@) && ks.secret_key@ == seed@ + ks.public_key@),
            seed@.len() != 32 ==> r == Result::<KeyStore, CryptoError>::Err(
                CryptoError::IncongruentLength(32, seed@.len() as usize),
            ),
    {
        if seed.len() != 32 {
            return Err(CryptoError::IncongruentLength(32, seed.len()));
        }
        let (secret_key, public_key) = nacl_generate_keypair(seed);
        proof {
            assert(secret_key@.subrange(32, 64) =~= public_key@);
            assert(secret_key@.subrange(0, 32) =~= seed@);
        }
        Ok(KeyStore { secret_key, public_key })
    }

    /// Decides well-formedness at run time, for callers that obtained key
    /// material from outside the library's constructors: the lengths, the
    /// stored public half, and genuineness re-derived from the seed.
    pub fn is_well_formed(&self) -> (r: bool)
        ensures
            r == self.wf(),
    {
        if self.secret_key.len() != 64 || self.public_key.len() != 32 {
            return false;
        }
        let mut seed: Vec<u8> = Vec::new();
        let mut i: usize = 0;
        while i < 32
            invariant
                i <= 32,
                self.secret_key@.len() == 64,
                seed@ =~= self.secret_key@.subrange(0, i as int),
            decreases 32 - i,
        {
            seed.push(self.secret_key[i]);
            i += 1;
            proof {
                assert(seed@ =~= self.secret_key@.subrange(0, i as int));
            }
        }
        let (_, derived) = nacl_generate_keypair(seed.as_slice());
        let mut j: usize = 0;
        while j < 32
            invariant
                j <= 32,
                self.secret_key@.len() == 64,
                self.public_key@.len() == 32,
                derived@ == ed25519_pkey_of_seed(self.secret_key@.subrange(0, 32)),
                derived@.len() == 32,
                forall|k: int|
                    0 <= k < j ==> derived@[k] == self.secret_key@[32 + k] && derived@[k]
                        == self.public_key@[k],
            decreases 32 - j,
        {
            if derived[j] != self.secret_key[32 + j] || derived[j] != self.public_key[j] {
                proof {
                    let tail = self.secret_key@.subrange(32, 64);
                    assert(tail[j as int] == self.secret_key@[32 + j]);
                }
                return false;
            }
            j += 1;
        }
        proof {
            assert(self.secret_key@.subrange(32, 64) =~= derived@);
            assert(self.public_key@ =~= derived@);
        }
        true
    }

    /// The 32-byte public half.
    pub fn public_key(&self) -> (r: &Vec<u8>)
        ensures
            r@ == self.public_key@,
    {
        &self.public_key
    }

    /// The 64-byte secret half.
    pub fn secret_key(&self) -> (r: &Vec<u8>)
        ensures
            r@ == self.secret_key@,
    {
        &self.secret_key
    }

    /// Signs a message; the result verifies under this store's public key.
    ///
    /// The message must be non-empty because the signing primitive refuses
    /// empty input; `try_sign` decides that case for the caller.
    pub fn sign(&self, message: &[u8]) -> (r: Vec<u8>)
        requires
            self.wf(),
            message@.len() > 0,
        ensures
            r@ == ed25519_signature(message@, self.secret_key@),
            r@.len() == 64,
            ed25519_verifies(r@, message@, self.public_key@),
    {
        nacl_signature(message, self.secret_key.as_slice())
    }

    /// Signs where a signature exists: exactly the empty message, which
    /// the signing primitive refuses, yields nothing.
    pub fn try_sign(&self, message: &[u8]) -> (r: Option<Vec<u8>>)
        requires
            self.wf(),
        ensures
            r is None <==> message@.len() == 0,
            r matches Some(s) ==> {
                &&& s@ == ed25519_signature(message@, self.secret_key@)
                &&& s@.len() == 64
                &&& ed25519_verifies(s@, message@, self.public_key@)
            },
    {
        if message.len() == 0 {
            None
        } else {
            Some(self.sign(message))
        }
    }

    /// Checks a signature on a message under this store's public key.
    pub fn verify(&self, message: &[u8], signature: &[u8]) -> (r: bool)
        requires
            self.wf(),
        ensures
            r == ed25519_verifies(signature@, message@, self.public_key@),
    {
        nacl_verify(signature, message, self.public_key.as_slice())
    }

    /// The public key, rendered as base64url without padding.
    pub fn get_public_key_base64(&self) -> (r: String)
        requires
            self.wf(),
        ensures
            r@ == b64_encoding(self.public_key@),
            r@.len() == 43,
    {
        b64_encode(self.public_key.as_slice())
    }
}

} // verus!
