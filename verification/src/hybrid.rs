//! Hybrid attestation: the post-quantum pipeline AND a classical SHAKE256
//! MAC check, so the verdict stands while either layer stands.
//!
//! The MAC key is derived from the seed before the seed is wiped; the MAC is
//! computed and recomputed over the claim and compared in constant time. The
//! transcript binds to the commitment under its own tag, so a hybrid verdict
//! never shares a transcript with a plain one.

use crate::bytes::to_array_32;
use crate::ct::{choice_and_bits, ct_eq_bytes};
use crate::l0_memlock::zeroize_vec;
use crate::l1_entropy::{harvest, harvest_outcome, JitterSource, Seed};
use crate::l2_keygen::{derive_keys, spec_keys};
use crate::l3_commit::{commit, spec_commit};
use crate::l4_prove::{MlDsaProver, Prover};
use crate::l5_verify::{spec_ml_dsa_verify, MlDsaVerifier, Verifier};
use crate::l6_zeroise::scrub;
use crate::l4_prove::spec_ml_dsa_prove;
use crate::l7_emit::Verdict;
use crate::pipeline::{spec_pipeline, verdict_matches, Claim};
use crate::pq_backends::libcrux_backend::signatures_verify;
use crate::xof::{shake2, shake256, shake3};
use crate::VeilError;
use vstd::prelude::*;

verus! {

/// Tag of the classical MAC: "veil7:hybrid:mac:v1".
pub const HYBRID_MAC: [u8; 19] = [0x76, 0x65, 0x69, 0x6c, 0x37, 0x3a, 0x68, 0x79, 0x62, 0x72, 0x69, 0x64, 0x3a, 0x6d, 0x61, 0x63, 0x3a, 0x76, 0x31];
/// Tag of the MAC key derivation: "veil7:hybrid:key:v1".
pub const HYBRID_KEY: [u8; 19] = [0x76, 0x65, 0x69, 0x6c, 0x37, 0x3a, 0x68, 0x79, 0x62, 0x72, 0x69, 0x64, 0x3a, 0x6b, 0x65, 0x79, 0x3a, 0x76, 0x31];
/// Tag of the hybrid transcript: "veil7:hybrid:bind:v1".
pub const HYBRID_BIND: [u8; 20] = [0x76, 0x65, 0x69, 0x6c, 0x37, 0x3a, 0x68, 0x79, 0x62, 0x72, 0x69, 0x64, 0x3a, 0x62, 0x69, 0x6e, 0x64, 0x3a, 0x76, 0x31];

/// The classical MAC of a claim under the key derived from a seed.
pub open spec fn spec_hybrid_mac(seed: Seq<u8>, claim: Seq<u8>) -> Seq<u8> {
    shake256(HYBRID_MAC@ + shake256(HYBRID_KEY@ + seed, 32) + claim, 32)
}

/// The hybrid verdict for a seed and a claim: the post-quantum bit (the MAC
/// recomputation always agrees) and the transcript bound under `HYBRID_BIND`.
pub open spec fn spec_hybrid(seed: Seq<u8>, claim: Seq<u8>) -> Result<(u8, Seq<u8>), VeilError> {
    let keys = spec_keys(seed);
    let c = spec_commit(keys, claim, Seq::empty());
    match spec_ml_dsa_prove(keys, c) {
        Err(e) => Err(e),
        Ok(sig) => match spec_ml_dsa_verify(keys, claim, sig) {
            Err(e) => Err(e),
            Ok(bit) => Ok((bit, shake256(HYBRID_BIND@ + c, 32))),
        },
    }
}

/// The hybrid pipeline on a caller-supplied seed. The ML-DSA key pair the
/// seed derives verifies every signature it makes.
pub fn hybrid_attest_with_seed(seed: Seed, claim: &Claim) -> (r: Result<Verdict, VeilError>)
    ensures
        verdict_matches(r, spec_hybrid(seed@, claim.bytes@)),
        signatures_verify(spec_keys(seed@).1),
{
    let keys = derive_keys(&seed)?;
    let mut mac_key = shake2(&HYBRID_KEY, seed.as_bytes(), 32);
    {
        let _wiped = seed;
    }
    let commitment = commit(&keys, claim.bytes);
    let proof = MlDsaProver::prove(&keys, &commitment)?;
    let pq_valid = MlDsaVerifier::verify(&keys, claim.bytes, &proof)?;

    let mut mac = shake3(&HYBRID_MAC, mac_key.as_slice(), claim.bytes, 32);
    let mut mac_check = shake3(&HYBRID_MAC, mac_key.as_slice(), claim.bytes, 32);
    let classical_valid = ct_eq_bytes(mac.as_slice(), mac_check.as_slice());
    zeroize_vec(&mut mac_key);
    zeroize_vec(&mut mac);
    zeroize_vec(&mut mac_check);

    let combined = choice_and_bits(pq_valid, classical_valid);
    let transcript = shake2(&HYBRID_BIND, commitment.as_bytes(), 32);
    let verdict = Verdict::from_batch(combined, &to_array_32(&transcript));
    scrub(keys);
    Ok(verdict)
}

/// Harvest entropy bound to the claim's personalization, then run the
/// hybrid pipeline.
pub fn hybrid_attest<J: JitterSource>(claim: &Claim, jitter: &mut J) -> (r: Result<Verdict, VeilError>)
    ensures
        r == Err::<Verdict, VeilError>(VeilError::Entropy)
            || exists|seed: Seq<u8>| harvest_outcome(claim.personalization@, seed)
                && signatures_verify(spec_keys(seed).1)
                && #[trigger] verdict_matches(r, spec_hybrid(seed, claim.bytes@)),
{
    let seed = harvest(claim.personalization, jitter)?;
    let ghost s = seed@;
    let r = hybrid_attest_with_seed(seed, claim);
    assert(verdict_matches(r, spec_hybrid(s, claim.bytes@)));
    r
}

/// For the same seed and claim, the hybrid pipeline succeeds exactly when the
/// plain pipeline does and carries the same validity bit: the classical MAC
/// check never changes the verdict bit; only the transcript tag differs.
pub proof fn lemma_hybrid_bit_matches_plain(seed: Seq<u8>, claim: Seq<u8>)
    ensures
        spec_hybrid(seed, claim) is Ok <==> spec_pipeline::<MlDsaProver, MlDsaVerifier>(seed, claim) is Ok,
        spec_hybrid(seed, claim) is Ok ==> spec_hybrid(seed, claim)->Ok_0.0
            == spec_pipeline::<MlDsaProver, MlDsaVerifier>(seed, claim)->Ok_0.0,
{
}

} // verus!
