use veil7::l1_entropy::{harvest, JitterSource};
use veil7::l2_keygen::{derive_keys, EphemeralKeys};
use veil7::l3_commit::{commit, Commitment};
use veil7::l4_prove::{
    validate_proof, validate_proof_strength, MlDsa65Scheme, MlDsa87Scheme, MlDsaProver, Proof, ProofScheme, Prover,
};
use veil7::pq_backends::libcrux_backend::{self, MLDSA65Signature};
use veil7::VeilError;

struct ClockJitter(u64);

impl JitterSource for ClockJitter {
    fn jitter(&mut self) -> [u8; 24] {
        self.0 = self.0.wrapping_add(1);
        let nanos = std::time::SystemTime::now()
            .duration_since(std::time::UNIX_EPOCH)
            .map(|d| d.as_nanos())
            .unwrap_or(0);
        let mut out = [0u8; 24];
        out[..16].copy_from_slice(&nanos.to_le_bytes());
        out[16..].copy_from_slice(&self.0.to_le_bytes());
        out
    }
}

fn keys_for(p: &[u8]) -> EphemeralKeys {
    let seed = harvest(p, &mut ClockJitter(0)).unwrap();
    derive_keys(&seed).unwrap()
}

fn valid_proof(claim: &[u8]) -> (EphemeralKeys, Commitment, Proof) {
    let keys = keys_for(b"l4");
    let c = commit(&keys, claim);
    let proof = MlDsaProver::prove(&keys, &c).unwrap();
    (keys, c, proof)
}

#[test]
fn proof_changes_when_commitment_changes() {
    let keys = keys_for(b"l4c");
    let c1 = commit(&keys, b"claim-A");
    let c2 = commit(&keys, b"claim-B");
    let p1 = MlDsaProver::prove(&keys, &c1).unwrap();
    let p2 = MlDsaProver::prove(&keys, &c2).unwrap();
    assert_ne!(p1.sig.as_slice(), p2.sig.as_slice());
}

#[test]
fn proof_binds_to_sig_ctx_domain_separator() {
    let (_, c, proof) = valid_proof(b"ctx-test");
    assert_eq!(proof.sig.as_slice().len(), libcrux_backend::DSA_SIG_SIZE);
    let _ = c;
}

#[test]
fn proof_sig_encode_is_stable_byte_layout() {
    let (_, _, proof) = valid_proof(b"stable");
    assert_eq!(proof.sig.as_slice().len(), 3309, "ML-DSA-65 signature must be 3309 bytes");
}

#[test]
fn validate_proof_accepts_valid_proof() {
    let (_, _, proof) = valid_proof(b"test");
    assert!(validate_proof(&proof).is_ok());
}

#[test]
fn validate_proof_strength_accepts_valid_proof() {
    let (_, _, proof) = valid_proof(b"test");
    assert!(validate_proof_strength(&proof).is_ok());
}

#[test]
fn proof_scheme_trait_ml_dsa_65() {
    let keys = keys_for(b"scheme");
    let c = commit(&keys, b"test");
    let proof1 = MlDsa65Scheme::prove(&keys, &c).unwrap();
    let proof2 = MlDsaProver::prove(&keys, &c).unwrap();
    assert_eq!(proof1.sig.as_slice(), proof2.sig.as_slice());
}

#[test]
fn degenerate_signatures_are_refused() {
    let zeros = Proof { sig: MLDSA65Signature::new([0u8; 3309]) };
    assert_eq!(validate_proof(&zeros), Err(VeilError::Crypto));
    let ones = Proof { sig: MLDSA65Signature::new([0xFFu8; 3309]) };
    assert_eq!(validate_proof(&ones), Err(VeilError::Crypto));
    let mut nine = [0u8; 3309];
    for (i, b) in nine.iter_mut().enumerate() {
        *b = (i % 9) as u8;
    }
    let weak = Proof { sig: MLDSA65Signature::new(nine) };
    assert!(validate_proof(&weak).is_ok());
    assert_eq!(validate_proof_strength(&weak), Err(VeilError::Crypto));
}

#[test]
fn ml_dsa_87_scheme_is_unavailable() {
    let keys = keys_for(b"87");
    let c = commit(&keys, b"x");
    assert!(matches!(MlDsa87Scheme::prove(&keys, &c), Err(VeilError::Crypto)));
}
