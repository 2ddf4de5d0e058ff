use sha3::digest::{ExtendableOutput, Update, XofReader};
use sha3::Shake256;
use subtle::{Choice, ConstantTimeEq};
use veil7::common::domain;
use veil7::l1_entropy::{harvest, JitterSource};
use veil7::l2_keygen::{derive_keys, EphemeralKeys};
use veil7::l3_commit::commit;
use veil7::l4_prove::{MlDsaProver, Proof, Prover};
use veil7::l5_verify::{
    validate_verification_result, verify_multi_check, MlDsa65VerificationScheme, MlDsa87VerificationScheme,
    MlDsaVerifier, VerificationScheme, Verifier,
};
use veil7::pq_backends::libcrux_backend::{self, MLDSA65Signature};
use veil7::VeilError;

struct ClockJitter(u64);

impl JitterSource for ClockJitter {
    fn jitter(&mut self) -> [u8; 24] {
        self.0 = self.0.wrapping_add(1);
        let nanos = std::time::SystemTime::now()
            .duration_since(std::time::UNIX_EPOCH)
            .map(|d| d.as_nanos())
            .unwrap_or(0);
        let mut out = [0u8; 24];
        out[..16].copy_from_slice(&nanos.to_le_bytes());
        out[16..].copy_from_slice(&self.0.to_le_bytes());
        out
    }
}

fn keys_for(p: &[u8]) -> EphemeralKeys {
    let seed = harvest(p, &mut ClockJitter(0)).unwrap();
    derive_keys(&seed).unwrap()
}

fn valid_setup(claim: &[u8]) -> (EphemeralKeys, Proof) {
    let keys = keys_for(b"l5");
    let c = commit(&keys, claim);
    let proof = MlDsaProver::prove(&keys, &c).unwrap();
    (keys, proof)
}

#[test]
fn valid_proof_verifies() {
    let (keys, proof) = valid_setup(b"hello");
    let ok = MlDsaVerifier::verify(&keys, b"hello", &proof).unwrap();
    assert_eq!(ok.unwrap_u8(), 1);
}

#[test]
fn wrong_claim_fails() {
    let (keys, proof) = valid_setup(b"hello");
    let ok = MlDsaVerifier::verify(&keys, b"goodbye", &proof).unwrap();
    assert_eq!(ok.unwrap_u8(), 0, "tampered claim must fail");
}

#[test]
fn tampered_signature_fails() {
    let (keys, mut proof) = valid_setup(b"hello");
    let sig_bytes = proof.sig.as_slice();
    let mut corrupted = [0u8; libcrux_backend::DSA_SIG_SIZE];
    corrupted.copy_from_slice(sig_bytes);
    corrupted[0] ^= 0xFF;
    proof.sig = MLDSA65Signature::new(corrupted);
    let ok = MlDsaVerifier::verify(&keys, b"hello", &proof).unwrap();
    assert_eq!(ok.unwrap_u8(), 0, "tampered signature must fail");
}

#[test]
fn verify_accumulates_constant_time_even_with_signature_failure() {
    let (keys, mut proof) = valid_setup(b"hello");
    let sig_bytes = proof.sig.as_slice();
    let mut corrupted = [0u8; libcrux_backend::DSA_SIG_SIZE];
    corrupted.copy_from_slice(sig_bytes);
    corrupted[0] ^= 0xFF;
    proof.sig = MLDSA65Signature::new(corrupted);
    for claim in &[b"hello" as &[u8], b"", b"\x00\xff\x80", b"a-longer-claim-for-variety"] {
        let ok = MlDsaVerifier::verify(&keys, claim, &proof).unwrap();
        assert_eq!(ok.unwrap_u8(), 0, "tampered signature must yield 0 for any claim");
    }
}

#[test]
fn kem_roundtrip_legitimate_path_produces_matching_secrets() {
    let keys = keys_for(b"l5legit");
    let c = commit(&keys, b"hello");
    let mut xof = Shake256::default();
    xof.update(&domain::KEM_ENCAP_COINS);
    xof.update(c.as_bytes());
    let mut m = [0u8; 32];
    xof.finalize_xof().read(&mut m);
    let (ct, ss_send) = libcrux_backend::kem_encapsulate(keys.kem_kp.public_key(), m);
    let ss_recv = libcrux_backend::kem_decapsulate(keys.kem_kp.private_key(), &ct);
    assert_eq!(
        ss_send.as_slice().ct_eq(ss_recv.as_slice()).unwrap_u8(),
        1,
        "legitimate KEM round-trip must produce matching shared secrets"
    );
}

#[test]
fn validate_verification_result_accepts_valid_result() {
    let valid_choice = Choice::from(1);
    assert!(validate_verification_result(&valid_choice).is_ok());
    let invalid_choice = Choice::from(0);
    assert!(validate_verification_result(&invalid_choice).is_ok());
}

#[test]
fn verify_multi_check_valid_proof() {
    let (keys, proof) = valid_setup(b"hello");
    let ok = verify_multi_check(&keys, b"hello", &proof).unwrap();
    assert_eq!(ok.unwrap_u8(), 1);
}

#[test]
fn verification_scheme_trait_ml_dsa_65() {
    let (keys, proof) = valid_setup(b"test");
    let ok1 = MlDsa65VerificationScheme::verify(&keys, b"test", &proof).unwrap();
    let ok2 = MlDsaVerifier::verify(&keys, b"test", &proof).unwrap();
    assert_eq!(ok1.unwrap_u8(), ok2.unwrap_u8());
}

#[test]
fn verify_multi_check_refuses_degenerate_proof() {
    let (keys, _) = valid_setup(b"x");
    let zeros = Proof { sig: MLDSA65Signature::new([0u8; 3309]) };
    assert!(matches!(verify_multi_check(&keys, b"x", &zeros), Err(VeilError::Crypto)));
    let (keys2, proof2) = valid_setup(b"y");
    assert!(matches!(MlDsa87VerificationScheme::verify(&keys2, b"y", &proof2), Err(VeilError::Crypto)));
}
