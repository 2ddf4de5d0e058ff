//! FN-DSA (FIPS 206, draft) signature surface.
//!
//! The sizes are those of FN-DSA-512. Until a backend is integrated every
//! operation fails closed: no key is derived, nothing is signed, and every
//! signature is rejected.

use crate::ct::{choice_bit, choice_from_bit};
use vstd::prelude::*;

verus! {

/// Secret key length of FN-DSA-512.
pub const SECRET_KEY_LEN: usize = 1281;

/// Public key length of FN-DSA-512.
pub const PUBLIC_KEY_LEN: usize = 897;

/// Upper bound on an FN-DSA-512 signature length.
pub const SIGNATURE_LEN_MAX: usize = 1280;

/// An encoded secret key.
pub type SecretKey = [u8; SECRET_KEY_LEN];

/// An encoded public key.
pub type PublicKey = [u8; PUBLIC_KEY_LEN];

/// A signature buffer.
pub type SignatureBytes = [u8; SIGNATURE_LEN_MAX];

/// FN-DSA signer; fails closed.
pub struct FnDsaSigner;

impl FnDsaSigner {
    /// No key is derived.
    pub fn derive_secret_key(seed: &[u8; 32]) -> (sk: Option<SecretKey>)
        ensures
            sk is None,
    {
        None
    }

    /// Nothing is signed, and the secret key is left as it was.
    pub fn sign(message: &[u8], secret: &mut SecretKey) -> (sig: Option<SignatureBytes>)
        ensures
            sig is None,
            final(secret)@ == old(secret)@,
    {
        None
    }

    /// Every signature is rejected: the choice holds 0.
    pub fn verify(message: &[u8], signature: &SignatureBytes, public: &PublicKey, sig_len: usize) -> (ok: subtle::Choice)
        ensures
            choice_bit(ok) == 0,
    {
        choice_from_bit(0)
    }
}

} // verus!
