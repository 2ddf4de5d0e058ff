//! Blind attestation — the engine attests data it never sees.
//!
//! The caller masks the claim with `SHAKE256(BLIND_MASK ‖ nonce)` (cycled over
//! 32 bytes), the engine attests the blinded bytes, and the caller unblinds the
//! transcript with `SHAKE256(BLIND_UNMASK ‖ nonce)`.

use crate::bytes::to_array_32;
use crate::osrand::os_random;
use crate::xof::{shake256, shake2};
use crate::VeilError;
use crate::l1_entropy::JitterSource;
use crate::l7_emit::Verdict;
use crate::pipeline::{verify_once, verify_once_outcome, Claim};
use crate::l0_memlock::secure_zero;
use vstd::prelude::*;

verus! {

/// Domain tag of the claim mask: "veil7:blind:mask:v1".
pub const BLIND_MASK: [u8; 19] = [0x76, 0x65, 0x69, 0x6c, 0x37, 0x3a, 0x62, 0x6c, 0x69, 0x6e, 0x64, 0x3a, 0x6d, 0x61, 0x73, 0x6b, 0x3a, 0x76, 0x31];
/// Domain tag of the transcript unmask: "veil7:blind:unmask:v1".
pub const BLIND_UNMASK: [u8; 21] = [0x76, 0x65, 0x69, 0x6c, 0x37, 0x3a, 0x62, 0x6c, 0x69, 0x6e, 0x64, 0x3a, 0x75, 0x6e, 0x6d, 0x61, 0x73, 0x6b, 0x3a, 0x76, 0x31];

/// The claim mask a nonce determines.
pub open spec fn spec_blind_mask(nonce: Seq<u8>) -> Seq<u8> {
    shake256(BLIND_MASK@ + nonce, 32)
}

/// The transcript unmask a nonce determines.
pub open spec fn spec_unblind_mask(nonce: Seq<u8>) -> Seq<u8> {
    shake256(BLIND_UNMASK@ + nonce, 32)
}

/// `claim[i] ⊕ mask[i mod 32]` for every position of the claim.
pub open spec fn spec_blind(claim: Seq<u8>, mask: Seq<u8>) -> Seq<u8> {
    Seq::new(claim.len(), |i: int| claim[i] ^ mask[i % 32])
}

/// The blinding material held by the caller: the nonce, from which the
/// claim mask and the transcript unmask are derived when they are used, so
/// the mask can never disagree with the nonce.
pub struct BlindFactor {
    nonce: [u8; 32],
}

impl BlindFactor {
    /// The nonce the factor was built from.
    pub closed spec fn spec_nonce(&self) -> Seq<u8> {
        self.nonce@
    }

    /// The 32-byte claim mask: the one the nonce determines.
    pub open spec fn spec_mask(&self) -> Seq<u8> {
        spec_blind_mask(self.spec_nonce())
    }

    /// Generate a fresh random blinding factor from the OS random source.
    pub fn fresh() -> (r: Result<Self, VeilError>)
        ensures
            r matches Ok(f) ==> f.spec_nonce().len() == 32,
            r matches Err(e) ==> e == VeilError::Entropy,
    {
        match os_random(32) {
            Some(bytes) => Ok(Self::from_nonce(to_array_32(&bytes))),
            None => Err(VeilError::Entropy),
        }
    }

    /// Reconstruct from a stored nonce (e.g. for two-phase protocols).
    pub fn from_nonce(nonce: [u8; 32]) -> (f: Self)
        ensures
            f.spec_nonce() == nonce@,
    {
        BlindFactor { nonce }
    }

    /// The nonce (for caller-side storage between blind and unblind).
    pub fn nonce(&self) -> (n: &[u8; 32])
        ensures
            n@ == self.spec_nonce(),
    {
        &self.nonce
    }
}

impl Drop for BlindFactor {
    /// Wipe the nonce.
    fn drop(&mut self)
        opens_invariants none
        no_unwind
    {
        secure_zero(&mut self.nonce);
    }
}

/// Blind a claim: `blinded[i] = claim[i] ⊕ mask[i mod 32]`, with the mask
/// `SHAKE256(BLIND_MASK ‖ nonce)` derived from the factor and wiped after use.
pub fn blind_claim(claim: &[u8], factor: &BlindFactor) -> (blinded: Vec<u8>)
    ensures
        blinded@ == spec_blind(claim@, spec_blind_mask(factor.spec_nonce())),
{
    let mut mask = shake2(&BLIND_MASK, &factor.nonce, 32);
    let n = claim.len();
    let mut blinded: Vec<u8> = Vec::new();
    let mut i: usize = 0;
    while i < n
        invariant
            i <= n,
            n == claim@.len(),
            mask@ == spec_blind_mask(factor.spec_nonce()),
            mask@.len() == 32,
            blinded@ == spec_blind(claim@.subrange(0, i as int), mask@),
        decreases n - i,
    {
        let b = claim[i] ^ mask[i % 32];
        blinded.push(b);
        i = i + 1;
        assert(blinded@ =~= spec_blind(claim@.subrange(0, i as int), mask@));
    }
    assert(claim@.subrange(0, n as int) =~= claim@);
    crate::l0_memlock::zeroize_vec(&mut mask);
    blinded
}

/// Unblind a transcript: `unblinded[i] = transcript[i] ⊕ unmask[i]`.
pub fn unblind_transcript(transcript: &[u8; 32], factor: &BlindFactor) -> (out: [u8; 32])
    ensures
        out@ == Seq::new(32, |i: int| transcript@[i] ^ spec_unblind_mask(factor.spec_nonce())[i]),
{
    let mut unmask = shake2(&BLIND_UNMASK, &factor.nonce, 32);
    let mut unblinded = [0u8; 32];
    let mut i: usize = 0;
    while i < 32
        invariant
            i <= 32,
            unmask@ == spec_unblind_mask(factor.spec_nonce()),
            unmask@.len() == 32,
            forall|j: int| 0 <= j < i ==> unblinded@[j] == transcript@[j] ^ unmask@[j],
        decreases 32 - i,
    {
        unblinded[i] = transcript[i] ^ unmask[i];
        i = i + 1;
    }
    assert(unblinded@ =~= Seq::new(32, |i: int| transcript@[i] ^ spec_unblind_mask(factor.spec_nonce())[i]));
    crate::l0_memlock::zeroize_vec(&mut unmask);
    unblinded
}

/// Blinding is an involution: blinding a blinded claim with the same mask
/// gives the original claim back.
pub proof fn lemma_blind_involution(claim: Seq<u8>, mask: Seq<u8>)
    ensures
        spec_blind(spec_blind(claim, mask), mask) == claim,
{
    let once = spec_blind(claim, mask);
    let twice = spec_blind(once, mask);
    assert forall|i: int| 0 <= i < claim.len() implies twice[i] == claim[i] by {
        let c = claim[i];
        let m = mask[i % 32];
        assert(((c ^ m) ^ m) == c) by (bit_vector);
    }
    assert(twice =~= claim);
}

/// What `blind_attest` can return for a claim once the nonce is fixed: the
/// default pipeline's outcome on the claim blinded under that nonce, with the
/// transcript unblinded alongside a verdict.
pub open spec fn blinded_outcome(claim: Seq<u8>, nonce: Seq<u8>, r: Result<(Verdict, [u8; 32]), VeilError>) -> bool {
    let blinded = spec_blind(claim, spec_blind_mask(nonce));
    match r {
        Ok((v, unblinded)) => verify_once_outcome(Seq::empty(), blinded, Ok::<Verdict, VeilError>(v))
            && unblinded@ == Seq::new(32, |i: int| v@.1[i] ^ spec_unblind_mask(nonce)[i]),
        Err(e) => verify_once_outcome(Seq::empty(), blinded, Err::<Verdict, VeilError>(e)),
    }
}

/// Blind a claim with a fresh factor, attest the blinded bytes, and unblind
/// the transcript: the engine never sees the claim. It fails with `Entropy`
/// when the OS source fails (for the nonce or the harvest); otherwise the
/// result is the pipeline's on the claim blinded under a fresh 32-byte nonce,
/// errors included.
pub fn blind_attest<J: JitterSource>(claim: &[u8], jitter: &mut J) -> (r: Result<(Verdict, [u8; 32]), VeilError>)
    ensures
        r == Err::<(Verdict, [u8; 32]), VeilError>(VeilError::Entropy)
            || exists|nonce: Seq<u8>| nonce.len() == 32 && #[trigger] blinded_outcome(claim@, nonce, r),
        r matches Ok((v, unblinded)) ==> exists|nonce: Seq<u8>|
            nonce.len() == 32
            && verify_once_outcome(Seq::empty(), #[trigger] spec_blind(claim@, spec_blind_mask(nonce)), Ok::<Verdict, VeilError>(v))
            && unblinded@ == Seq::new(32, |i: int| v@.1[i] ^ spec_unblind_mask(nonce)[i]),
{
    let factor = match BlindFactor::fresh() {
        Ok(f) => f,
        Err(e) => {
            return Err(e);
        },
    };
    let ghost n = factor.spec_nonce();
    let blinded = blind_claim(claim, &factor);
    assert(spec_blind(claim@, spec_blind_mask(n)) == blinded@);
    match verify_once(&Claim::new(blinded.as_slice()), jitter) {
        Ok(verdict) => {
            let unblinded = unblind_transcript(verdict.transcript(), &factor);
            let r: Result<(Verdict, [u8; 32]), VeilError> = Ok((verdict, unblinded));
            assert(blinded_outcome(claim@, n, r));
            r
        },
        Err(e) => {
            let r: Result<(Verdict, [u8; 32]), VeilError> = Err(e);
            assert(blinded_outcome(claim@, n, r));
            r
        },
    }
}

} // verus!
