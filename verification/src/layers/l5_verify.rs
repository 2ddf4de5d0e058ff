//! L5 — verification.
//!
//! The verifier recomputes the commitment from the claim, checks the
//! ML-DSA-65 signature over it, and runs a KEM round-trip (encapsulate to the
//! public key with coins derived from the commitment, decapsulate with the
//! private key, compare the secrets in constant time). The verdict bit is
//! the AND of the two checks.

use crate::common::domain;
use crate::ct::{choice_and_bits, choice_bit, choice_from_bit, choice_ok, choice_unwrap, ct_eq_bytes};
use crate::bytes::to_array_32;
use crate::l2_keygen::{EphemeralKeys, KeysView};
use crate::l3_commit::{commit, spec_commit, Commitment};
use crate::l4_prove::{proof_strong, proof_well_formed, sig_ctx, validate_proof, validate_proof_strength, Proof, SIG_CTX};
use crate::pq_backends::libcrux_backend::{
    dsa_verify, kem_decapsulate, kem_encapsulate, ml_dsa_65_verify, ml_kem_768_decapsulate, ml_kem_768_encapsulate,
};
use crate::xof::{shake2, shake256};
use crate::VeilError;
use vstd::prelude::*;

verus! {

/// The encapsulation coins derived from a commitment.
pub open spec fn spec_encap_coins(commitment: Seq<u8>) -> Seq<u8> {
    shake256(domain::KEM_ENCAP_COINS@ + commitment, 32)
}

/// Whether the KEM round-trip under the keys recovers the encapsulated secret.
pub open spec fn spec_kem_roundtrip(keys: KeysView, commitment: Seq<u8>) -> bool {
    let enc = ml_kem_768_encapsulate(keys.0.0, spec_encap_coins(commitment));
    enc.1 == ml_kem_768_decapsulate(keys.0.1, enc.0)
}

/// The verdict bit of ML-DSA verification: 1 exactly when the signature over
/// the recomputed commitment verifies and the KEM round-trip succeeds.
pub open spec fn spec_ml_dsa_verify(keys: KeysView, claim: Seq<u8>, sig: Seq<u8>) -> Result<u8, VeilError> {
    let c = spec_commit(keys, claim, Seq::empty());
    Ok(if ml_dsa_65_verify(keys.1.1, c, SIG_CTX@, sig) && spec_kem_roundtrip(keys, c) { 1u8 } else { 0u8 })
}

/// The verdict a verifier must return: a choice holding the expected bit, or
/// the error.
pub open spec fn verdict_result_matches(r: Result<subtle::Choice, VeilError>, expected: Result<u8, VeilError>) -> bool {
    match r {
        Ok(c) => expected == Ok::<u8, VeilError>(choice_bit(c)),
        Err(e) => expected == Err::<u8, VeilError>(e),
    }
}

/// A verifier of proofs over claims.
pub trait Verifier {
    /// What verifying the proof `sig` of `claim` under `keys` yields: the
    /// verdict bit or the error.
    spec fn spec_verify(keys: KeysView, claim: Seq<u8>, sig: Seq<u8>) -> Result<u8, VeilError>;

    /// Verify `proof` for `claim`.
    fn verify(keys: &EphemeralKeys, claim: &[u8], proof: &Proof) -> (r: Result<subtle::Choice, VeilError>)
        ensures
            verdict_result_matches(r, Self::spec_verify(keys@, claim@, proof@)),
    ;
}

/// Refuse a choice that holds anything but 0 or 1.
pub fn validate_verification_result(result: &subtle::Choice) -> (r: Result<(), VeilError>)
    ensures
        r is Ok == choice_ok(*result),
        r matches Err(e) ==> e == VeilError::Crypto,
{
    let value = choice_unwrap(result);
    if value != 0 && value != 1 {
        return Err(VeilError::Crypto);
    }
    Ok(())
}

/// Check the proof's shape and strength, verify it, and check the verdict is
/// a bit. Fails with `Crypto` when the proof is malformed or weak.
pub fn verify_multi_check(keys: &EphemeralKeys, claim: &[u8], proof: &Proof) -> (r: Result<subtle::Choice, VeilError>)
    ensures
        !(proof_well_formed(proof@) && proof_strong(proof@)) ==> (r matches Err(e) && e == VeilError::Crypto),
        proof_well_formed(proof@) && proof_strong(proof@) ==> verdict_result_matches(r, spec_ml_dsa_verify(keys@, claim@, proof@)),
{
    validate_proof(proof)?;
    validate_proof_strength(proof)?;
    let standard_result = MlDsaVerifier::verify(keys, claim, proof)?;
    validate_verification_result(&standard_result)?;
    Ok(standard_result)
}

/// A verification scheme with a choice of proof type.
pub trait VerificationScheme {
    /// The proof it checks.
    type ProofType;

    /// Verify `proof` for `claim`.
    fn verify(keys: &EphemeralKeys, claim: &[u8], proof: &Self::ProofType) -> Result<subtle::Choice, VeilError>;
}

/// ML-DSA-65 verification.
pub struct MlDsa65VerificationScheme;

/// ML-DSA-87 verification: not available, every call fails.
pub struct MlDsa87VerificationScheme;

impl VerificationScheme for MlDsa65VerificationScheme {
    type ProofType = Proof;

    fn verify(keys: &EphemeralKeys, claim: &[u8], proof: &Proof) -> (r: Result<subtle::Choice, VeilError>)
        ensures
            verdict_result_matches(r, spec_ml_dsa_verify(keys@, claim@, proof@)),
    {
        MlDsaVerifier::verify(keys, claim, proof)
    }
}

impl VerificationScheme for MlDsa87VerificationScheme {
    type ProofType = Proof;

    fn verify(keys: &EphemeralKeys, claim: &[u8], proof: &Proof) -> (r: Result<subtle::Choice, VeilError>)
        ensures
            r matches Err(e) && e == VeilError::Crypto,
    {
        Err(VeilError::Crypto)
    }
}

/// The ML-DSA-65 verifier.
pub struct MlDsaVerifier;

impl Verifier for MlDsaVerifier {
    open spec fn spec_verify(keys: KeysView, claim: Seq<u8>, sig: Seq<u8>) -> Result<u8, VeilError> {
        spec_ml_dsa_verify(keys, claim, sig)
    }

    fn verify(keys: &EphemeralKeys, claim: &[u8], proof: &Proof) -> (r: Result<subtle::Choice, VeilError>) {
        let recommitment = commit(keys, claim);
        let sig_ok = dsa_verify(&keys.dsa_kp.verification_key, recommitment.as_bytes(), sig_ctx(), &proof.sig).is_ok();
        let kem_ok = kem_roundtrip(keys, &recommitment);
        let sig_choice = choice_from_bit(if sig_ok { 1u8 } else { 0u8 });
        let combined = choice_and_bits(sig_choice, kem_ok);
        Ok(combined)
    }
}

/// Encapsulate to the public key with coins derived from the commitment,
/// decapsulate with the private key, and compare the two secrets in
/// constant time.
fn kem_roundtrip(keys: &EphemeralKeys, commitment: &Commitment) -> (ok: subtle::Choice)
    ensures
        choice_ok(ok),
        choice_bit(ok) == (if spec_kem_roundtrip(keys@, commitment@) { 1u8 } else { 0u8 }),
{
    let coins = shake2(&domain::KEM_ENCAP_COINS, commitment.as_bytes(), 32);
    let m = to_array_32(&coins);
    let (ct, ss_send) = kem_encapsulate(keys.kem_kp.public_key(), m);
    let ss_recv = kem_decapsulate(keys.kem_kp.private_key(), &ct);
    ct_eq_bytes(ss_send.as_slice(), ss_recv.as_slice())
}

} // verus!
