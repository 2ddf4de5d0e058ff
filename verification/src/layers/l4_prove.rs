//! L4 — proof generation.
//!
//! The proof is an ML-DSA-65 signature over the L3 commitment under the
//! context string `SIG_CTX`. The signing randomness is derived from the
//! commitment, so one commitment always yields one signature.

use crate::bytes::{count_distinct, to_array_32};
use crate::l0_memlock::{all_bytes, is_all_bytes, secure_zero};
use crate::l2_keygen::{EphemeralKeys, KeysView};
use crate::l3_commit::Commitment;
use crate::pq_backends::libcrux_backend::{dsa_sign, ml_dsa_65_sign, MLDSA65Signature, DSA_SIG_SIZE};
use crate::xof::{shake2, shake256};
use crate::VeilError;
use vstd::prelude::*;

verus! {

/// The ML-DSA context string of every proof.
pub const SIG_CTX: [u8; 14] = [0x76, 0x65, 0x69, 0x6c, 0x37, 0x3a, 0x70, 0x72, 0x6f, 0x6f, 0x66, 0x3a, 0x76, 0x31]; // "veil7:proof:v1"

/// The tag of the signing-randomness derivation.
pub const SIG_RANDOMNESS: [u8; 26] = [0x76, 0x65, 0x69, 0x6c, 0x37, 0x3a, 0x6c, 0x34, 0x3a, 0x73, 0x69, 0x67, 0x2d, 0x72, 0x61, 0x6e, 0x64, 0x6f, 0x6d, 0x6e, 0x65, 0x73, 0x73, 0x3a, 0x76, 0x31]; // "veil7:l4:sig-randomness:v1"

/// Fewest distinct byte values a signature must show.
pub const PROOF_MIN_DISTINCT: usize = 10;

/// An ML-DSA-65 signature over a commitment; wiped on drop.
pub struct Proof {
    /// The signature.
    pub sig: MLDSA65Signature,
}

impl View for Proof {
    type V = Seq<u8>;

    open spec fn view(&self) -> Seq<u8> {
        self.sig@
    }
}

impl Drop for Proof {
    /// Wipe the signature bytes.
    fn drop(&mut self)
        opens_invariants none
        no_unwind
    {
        secure_zero(&mut self.sig.bytes);
    }
}

/// The signing randomness derived from a commitment.
pub open spec fn spec_sig_randomness(commitment: Seq<u8>) -> Seq<u8> {
    shake256(SIG_RANDOMNESS@ + commitment, 32)
}

/// The signature ML-DSA-65 proving produces for a commitment, or the error.
pub open spec fn spec_ml_dsa_prove(keys: KeysView, commitment: Seq<u8>) -> Result<Seq<u8>, VeilError> {
    match ml_dsa_65_sign(keys.1.0, commitment, SIG_CTX@, spec_sig_randomness(commitment)) {
        Some(s) => Ok(s),
        None => Err(VeilError::Crypto),
    }
}

/// The signature proving must produce: the exact signature bytes, or the error.
pub open spec fn proof_result_matches(r: Result<Proof, VeilError>, expected: Result<Seq<u8>, VeilError>) -> bool {
    match r {
        Ok(p) => expected == Ok::<Seq<u8>, VeilError>(p@),
        Err(e) => expected == Err::<Seq<u8>, VeilError>(e),
    }
}

/// A proof whose signature is all zeros or all ones is refused.
pub open spec fn proof_well_formed(sig: Seq<u8>) -> bool {
    sig.len() == DSA_SIG_SIZE && !all_bytes(sig, 0) && !all_bytes(sig, 0xFF)
}

/// A proof passes the strength check when its signature bytes are not all
/// equal and take at least ten distinct values.
pub open spec fn proof_strong(sig: Seq<u8>) -> bool {
    !all_bytes(sig, sig[0]) && sig.to_set().len() >= PROOF_MIN_DISTINCT
}

/// Refuse a signature of the wrong size (never, by its type), or one that is
/// all zeros or all `0xFF`.
pub fn validate_proof(proof: &Proof) -> (r: Result<(), VeilError>)
    ensures
        r is Ok == proof_well_formed(proof@),
        r matches Err(e) ==> e == VeilError::Crypto,
{
    let sig_bytes = proof.sig.as_slice();
    if sig_bytes.len() != DSA_SIG_SIZE {
        return Err(VeilError::Crypto);
    }
    if is_all_bytes(sig_bytes, 0) {
        return Err(VeilError::Crypto);
    }
    if is_all_bytes(sig_bytes, 0xFF) {
        return Err(VeilError::Crypto);
    }
    Ok(())
}

/// Refuse a signature whose bytes are all equal or take fewer than ten
/// distinct values.
pub fn validate_proof_strength(proof: &Proof) -> (r: Result<(), VeilError>)
    ensures
        r is Ok == proof_strong(proof@),
        r matches Err(e) ==> e == VeilError::Crypto,
{
    let sig_bytes = proof.sig.as_ref();
    let first_byte = sig_bytes[0];
    if is_all_bytes(sig_bytes, first_byte) {
        return Err(VeilError::Crypto);
    }
    if count_distinct(sig_bytes) < PROOF_MIN_DISTINCT {
        return Err(VeilError::Crypto);
    }
    Ok(())
}

/// A proof scheme with a choice of proof type.
pub trait ProofScheme {
    /// The proof it produces.
    type ProofType;

    /// Prove knowledge of the keys behind `commitment`.
    fn prove(keys: &EphemeralKeys, commitment: &Commitment) -> Result<Self::ProofType, VeilError>;
}

/// ML-DSA-65 proofs.
pub struct MlDsa65Scheme;

/// ML-DSA-87 proofs: not available, every call fails.
pub struct MlDsa87Scheme;

impl ProofScheme for MlDsa65Scheme {
    type ProofType = Proof;

    fn prove(keys: &EphemeralKeys, commitment: &Commitment) -> (r: Result<Proof, VeilError>)
        ensures
            proof_result_matches(r, spec_ml_dsa_prove(keys@, commitment@)),
    {
        MlDsaProver::prove(keys, commitment)
    }
}

impl ProofScheme for MlDsa87Scheme {
    type ProofType = Proof;

    fn prove(keys: &EphemeralKeys, commitment: &Commitment) -> (r: Result<Proof, VeilError>)
        ensures
            r matches Err(e) && e == VeilError::Crypto,
    {
        Err(VeilError::Crypto)
    }
}

/// A prover: signs a commitment with the ephemeral keys.
pub trait Prover {
    /// What proving `commitment` under `keys` yields: the signature bytes or
    /// the error.
    spec fn spec_prove(keys: KeysView, commitment: Seq<u8>) -> Result<Seq<u8>, VeilError>;

    /// Prove knowledge of the keys behind `commitment`.
    fn prove(keys: &EphemeralKeys, commitment: &Commitment) -> (r: Result<Proof, VeilError>)
        ensures
            proof_result_matches(r, Self::spec_prove(keys@, commitment@)),
    ;
}

/// The ML-DSA-65 prover.
pub struct MlDsaProver;

impl Prover for MlDsaProver {
    open spec fn spec_prove(keys: KeysView, commitment: Seq<u8>) -> Result<Seq<u8>, VeilError> {
        spec_ml_dsa_prove(keys, commitment)
    }

    fn prove(keys: &EphemeralKeys, commitment: &Commitment) -> (r: Result<Proof, VeilError>) {
        let sig_randomness = derive_sig_randomness(commitment);
        let sig = dsa_sign(&keys.dsa_kp.signing_key, commitment.as_bytes(), &SIG_CTX, sig_randomness)?;
        Ok(Proof { sig })
    }
}

/// The signing randomness: SHAKE256 over the tag and the commitment.
pub fn derive_sig_randomness(commitment: &Commitment) -> (r: [u8; 32])
    ensures
        r@ == spec_sig_randomness(commitment@),
{
    let out = shake2(&SIG_RANDOMNESS, commitment.as_bytes(), 32);
    to_array_32(&out)
}

/// The ML-DSA context string of every proof.
pub fn sig_ctx() -> (c: &'static [u8])
    ensures
        c@ == SIG_CTX@,
{
    &SIG_CTX
}

} // verus!
