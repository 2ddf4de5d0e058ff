//! The HKDF boundary: RFC 5869 HKDF with SHA-256 from the `hkdf` crate.

use vstd::prelude::*;

verus! {

/// `hkdf::InvalidLength`, carried opaquely.
#[verifier::external_type_specification]
#[verifier::external_body]
pub struct ExInvalidLength(hkdf::InvalidLength);

/// Longest output HKDF-SHA-256 can expand to: 255 blocks of 32 bytes.
pub const HKDF_SHA256_MAX: usize = 8160;

/// The first `len` bytes of HKDF-Expand(HKDF-Extract(salt, ikm), info) with SHA-256.
pub uninterp spec fn hkdf_sha256(salt: Seq<u8>, ikm: Seq<u8>, info: Seq<u8>, len: nat) -> Seq<u8>;

/// `Hkdf::<Sha256>::new(Some(salt), ikm).expand(info, okm)`: fills `okm`
/// with the named output when it is at most 8160 bytes long; a longer
/// buffer is refused before anything is written.
#[verifier::external_body]
pub(crate) fn hkdf_expand_into(salt: &[u8], ikm: &[u8], info: &[u8], okm: &mut [u8]) -> (r: Result<(), hkdf::InvalidLength>)
    ensures
        r is Ok == (old(okm)@.len() <= HKDF_SHA256_MAX),
        final(okm)@.len() == old(okm)@.len(),
        r is Ok ==> final(okm)@ == hkdf_sha256(salt@, ikm@, info@, old(okm)@.len()),
        r is Err ==> final(okm)@ == old(okm)@,
{
    let hk = hkdf::Hkdf::<sha2::Sha256>::new(Some(salt), ikm);
    hk.expand(info, okm)
}

} // verus!
