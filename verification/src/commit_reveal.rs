//! Commit-Reveal — two-phase attestation.
//!
//! Phase 1 commits to `SHAKE256(CR_COMMIT ‖ nonce ‖ claim)` under a fresh
//! random nonce; phase 2 recomputes the digest from the revealed claim and
//! nonce and accepts only an exact (constant-time) match.

use crate::bytes::to_array_32;
use crate::ct::{choice_unwrap, ct_eq_bytes};
use crate::l0_memlock::{secure_zero, zeroize_vec};
use crate::osrand::os_random;
use crate::xof::{shake256, shake3};
use crate::VeilError;
use crate::l1_entropy::JitterSource;
use crate::l7_emit::Verdict;
use crate::pipeline::{verify_once, verify_once_outcome, Claim};
use vstd::prelude::*;

verus! {

/// Domain tag of the commitment: "veil7:cr:commit:v1".
pub const CR_COMMIT: [u8; 18] = [0x76, 0x65, 0x69, 0x6c, 0x37, 0x3a, 0x63, 0x72, 0x3a, 0x63, 0x6f, 0x6d, 0x6d, 0x69, 0x74, 0x3a, 0x76, 0x31];

/// The commitment digest of `claim` under `nonce`.
pub open spec fn spec_commit_digest(nonce: Seq<u8>, claim: Seq<u8>) -> Seq<u8> {
    shake256(CR_COMMIT@ + nonce + claim, 32)
}

/// A 32-byte commitment token: pure caller-side state.
pub struct CommitmentToken {
    digest: [u8; 32],
}

impl View for CommitmentToken {
    type V = Seq<u8>;

    closed spec fn view(&self) -> Seq<u8> {
        self.digest@
    }
}

impl Clone for CommitmentToken {
    /// A copy of the same digest.
    fn clone(&self) -> (t: Self)
        ensures
            t@ == self@,
    {
        CommitmentToken { digest: self.digest }
    }
}

impl CommitmentToken {
    /// The raw 32-byte digest.
    pub fn as_bytes(&self) -> (b: &[u8; 32])
        ensures
            b@ == self@,
    {
        &self.digest
    }

    /// Reconstruct a token from raw bytes.
    pub fn from_bytes(bytes: &[u8; 32]) -> (t: Self)
        ensures
            t@ == bytes@,
    {
        CommitmentToken { digest: *bytes }
    }
}

impl Drop for CommitmentToken {
    /// Wipe the digest.
    fn drop(&mut self)
        opens_invariants none
        no_unwind
    {
        secure_zero(&mut self.digest);
    }
}

/// The commitment token of `claim` under `nonce`:
/// `SHAKE256(CR_COMMIT ‖ nonce ‖ claim)`, 32 bytes.
pub fn commit_with_nonce(nonce: &[u8; 32], claim: &[u8]) -> (t: CommitmentToken)
    ensures
        t@ == spec_commit_digest(nonce@, claim@),
{
    let mut d = shake3(&CR_COMMIT, nonce, claim, 32);
    let t = CommitmentToken { digest: to_array_32(&d) };
    zeroize_vec(&mut d);
    t
}

/// Phase 1: commit to a claim under a fresh random nonce that is wiped
/// before returning; the token is the only artifact. Fails with `Entropy`
/// exactly when the OS random source fails; otherwise the token is
/// `commit_with_nonce` of the 32 bytes it drew.
pub fn commit(claim: &[u8]) -> (r: Result<CommitmentToken, VeilError>)
    ensures
        r matches Ok(t) ==> exists|n: Seq<u8>| n.len() == 32 && t@ == #[trigger] spec_commit_digest(n, claim@),
        r matches Err(e) ==> e == VeilError::Entropy,
{
    match os_random(32) {
        None => Err(VeilError::Entropy),
        Some(mut drawn) => {
            let mut nonce = to_array_32(&drawn);
            zeroize_vec(&mut drawn);
            let t = commit_with_nonce(&nonce, claim);
            let ghost n = nonce@;
            secure_zero(&mut nonce);
            assert(t@ == spec_commit_digest(n, claim@));
            Ok(t)
        },
    }
}

/// Phase 1: commit to a claim and hand back the nonce as well; the caller
/// holds both until the reveal. Fails with `Entropy` exactly when the OS
/// random source fails; otherwise the token is `commit_with_nonce` of the
/// returned nonce.
pub fn commit_phase(claim: &[u8]) -> (r: Result<(CommitmentToken, [u8; 32]), VeilError>)
    ensures
        r matches Ok((t, n)) ==> t@ == spec_commit_digest(n@, claim@),
        r matches Err(e) ==> e == VeilError::Entropy,
{
    match os_random(32) {
        None => Err(VeilError::Entropy),
        Some(mut drawn) => {
            let n = to_array_32(&drawn);
            zeroize_vec(&mut drawn);
            let t = commit_with_nonce(&n, claim);
            Ok((t, n))
        },
    }
}

/// Whether a reveal matches a token: the recomputed digest is the token.
pub open spec fn reveal_accepts(token: Seq<u8>, nonce: Seq<u8>, claim: Seq<u8>) -> bool {
    spec_commit_digest(nonce, claim) == token
}

/// Phase 2 check: recompute `SHAKE256(CR_COMMIT ‖ nonce ‖ claim)` and compare
/// it with the token in constant time. Refused unless they match exactly.
pub fn reveal_check(token: &CommitmentToken, nonce: &[u8; 32], claim: &[u8]) -> (r: Result<(), VeilError>)
    ensures
        r is Ok <==> reveal_accepts(token@, nonce@, claim@),
        r matches Err(e) ==> e == VeilError::Crypto,
{
    let mut recomputed = shake3(&CR_COMMIT, nonce, claim, 32);
    let ghost rv = recomputed@;
    let c = ct_eq_bytes(recomputed.as_slice(), &token.digest);
    let match_ok = choice_unwrap(&c);
    zeroize_vec(&mut recomputed);
    if match_ok != 1 {
        return Err(VeilError::Crypto);
    }
    Ok(())
}

/// Phase 2: check the reveal against the token, then attest the revealed
/// claim. Refused with `Crypto`, before any attestation, unless the reveal
/// matches the token.
pub fn reveal_phase<J: JitterSource>(token: &CommitmentToken, nonce: &[u8; 32], claim: &[u8], jitter: &mut J) -> (r: Result<Verdict, VeilError>)
    ensures
        !reveal_accepts(token@, nonce@, claim@) ==> (r matches Err(e) && e == VeilError::Crypto),
        reveal_accepts(token@, nonce@, claim@) ==> verify_once_outcome(Seq::empty(), claim@, r),
{
    reveal_check(token, nonce, claim)?;
    verify_once(&Claim::new(claim), jitter)
}

/// An honest reveal is accepted: the token committed under a nonce and a
/// claim accepts the reveal of that nonce and claim; a different claim or
/// nonce is accepted only if it reproduces the same digest.
pub proof fn lemma_honest_reveal_accepted(nonce: Seq<u8>, claim: Seq<u8>)
    ensures
        reveal_accepts(spec_commit_digest(nonce, claim), nonce, claim),
{
}

} // verus!
