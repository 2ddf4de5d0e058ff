//! L3 — binding commitment.
//!
//! `commitment = SHAKE256(COMMITMENT ‖ kem_pk ‖ dsa_vk ‖ claim)[..32]`: it
//! binds the claim to this iteration's public keys, so one commitment cannot
//! be replayed under another identity.

use crate::bytes::count_distinct;
use crate::common::domain;
use crate::l0_memlock::{all_bytes, is_all_bytes};
use crate::l2_keygen::{EphemeralKeys, KeysView};
use crate::pq_backends::libcrux_backend::{dsa_vk_bytes, kem_pk_bytes};
use crate::xof::{absorbed, shake256, xof_new, xof_squeeze, xof_update};
use crate::bytes::to_array_32;
use crate::VeilError;
use vstd::prelude::*;

verus! {

/// Width of a commitment.
pub const COMMITMENT_LEN: usize = 32;

/// Fewest distinct byte values a commitment must show.
pub const COMMITMENT_MIN_DISTINCT: usize = 4;

/// A 32-byte binding commitment.
#[derive(Clone, Copy, Debug, PartialEq, Eq)]
pub struct Commitment(pub [u8; 32]);

impl View for Commitment {
    type V = Seq<u8>;

    open spec fn view(&self) -> Seq<u8> {
        self.0@
    }
}

impl Commitment {
    /// The commitment bytes.
    pub fn as_bytes(&self) -> (b: &[u8; 32])
        ensures
            b@ == self@,
    {
        &self.0
    }
}

/// The commitment to `claim` (and `extra`, appended last) under the keys.
pub open spec fn spec_commit(keys: KeysView, claim: Seq<u8>, extra: Seq<u8>) -> Seq<u8> {
    shake256(domain::COMMITMENT@ + keys.0.0 + keys.1.1 + claim + extra, 32)
}

/// A commitment that is all zeros or all ones is refused.
pub open spec fn commitment_well_formed(c: Seq<u8>) -> bool {
    !all_bytes(c, 0) && !all_bytes(c, 0xFF)
}

/// A commitment passes the strength check when its bytes are not all equal
/// and take at least four distinct values.
pub open spec fn commitment_strong(c: Seq<u8>) -> bool {
    !all_bytes(c, c[0]) && c.to_set().len() >= COMMITMENT_MIN_DISTINCT
}

/// Refuse an all-zero or all-`0xFF` commitment.
pub fn validate_commitment(commitment: &Commitment) -> (r: Result<(), VeilError>)
    ensures
        r is Ok == commitment_well_formed(commitment@),
        r matches Err(e) ==> e == VeilError::Crypto,
{
    let bytes = commitment.as_bytes();
    if is_all_bytes(bytes, 0) {
        return Err(VeilError::Crypto);
    }
    if is_all_bytes(bytes, 0xFF) {
        return Err(VeilError::Crypto);
    }
    Ok(())
}

/// Refuse a commitment whose bytes are all equal or take fewer than four
/// distinct values.
pub fn validate_commitment_strength(commitment: &Commitment) -> (r: Result<(), VeilError>)
    ensures
        r is Ok == commitment_strong(commitment@),
        r matches Err(e) ==> e == VeilError::Crypto,
{
    let bytes = commitment.as_bytes();
    let first_byte = bytes[0];
    if is_all_bytes(bytes, first_byte) {
        return Err(VeilError::Crypto);
    }
    if count_distinct(bytes) < COMMITMENT_MIN_DISTINCT {
        return Err(VeilError::Crypto);
    }
    Ok(())
}

/// SHAKE256 over the tag, the two public keys, the claim and `extra`.
fn commit_with(keys: &EphemeralKeys, claim: &[u8], extra: &[u8]) -> (c: Commitment)
    ensures
        c@ == spec_commit(keys@, claim@, extra@),
{
    let kem_pk = kem_pk_bytes(&keys.kem_kp);
    let dsa_vk = dsa_vk_bytes(&keys.dsa_kp);
    let mut xof = xof_new();
    xof_update(&mut xof, &domain::COMMITMENT);
    xof_update(&mut xof, kem_pk);
    xof_update(&mut xof, dsa_vk);
    xof_update(&mut xof, claim);
    xof_update(&mut xof, extra);
    assert(absorbed(xof) =~= domain::COMMITMENT@ + keys@.0.0 + keys@.1.1 + claim@ + extra@);
    let out = xof_squeeze(xof, 32);
    Commitment(to_array_32(&out))
}

/// Commit to `claim` under the keys.
pub fn commit(keys: &EphemeralKeys, claim: &[u8]) -> (c: Commitment)
    ensures
        c@ == spec_commit(keys@, claim@, Seq::empty()),
{
    commit_with(keys, claim, &[])
}

/// Commit to `claim` and `additional_context` under the keys.
pub fn commit_multi_source(keys: &EphemeralKeys, claim: &[u8], additional_context: &[u8]) -> (c: Commitment)
    ensures
        c@ == spec_commit(keys@, claim@, additional_context@),
{
    commit_with(keys, claim, additional_context)
}

/// A commitment scheme.
pub trait CommitmentScheme {
    /// Commit to `claim` under the keys.
    fn commit(keys: &EphemeralKeys, claim: &[u8]) -> Commitment;
}

/// The SHAKE256 commitment of [`commit`].
pub struct Shake256Commitment;

impl CommitmentScheme for Shake256Commitment {
    fn commit(keys: &EphemeralKeys, claim: &[u8]) -> (c: Commitment)
        ensures
            c@ == spec_commit(keys@, claim@, Seq::empty()),
    {
        commit(keys, claim)
    }
}

} // verus!
