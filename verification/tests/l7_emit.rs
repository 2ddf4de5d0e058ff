use subtle::Choice;
use veil7::l1_entropy::Seed;
use veil7::l2_keygen::derive_keys;
use veil7::l3_commit::commit;
use veil7::l7_emit::{
    validate_verdict, validate_verdict_strength, verdict_multi_source, BasicVerdictScheme, Verdict, VerdictScheme,
};
use veil7::VeilError;

fn fake_seed() -> Seed {
    Seed::from_bytes(&[0xA5u8; 64])
}

#[test]
fn verdict_carries_bit_and_hash() {
    let seed = fake_seed();
    let keys = derive_keys(&seed).unwrap();
    let c = commit(&keys, b"claim");
    let v = Verdict::new(Choice::from(1u8), &c);
    assert!(v.is_valid_bool());
    assert_eq!(v.transcript().len(), 32);
}

#[test]
fn debug_is_metadata_free() {
    let seed = fake_seed();
    let keys = derive_keys(&seed).unwrap();
    let c = commit(&keys, b"claim");
    let v = Verdict::new(Choice::from(0u8), &c);
    let s = String::from_utf8(v.debug_text()).unwrap();
    assert!(s.contains("valid: 0"));
    assert!(s.contains("transcript:"));
}

#[test]
fn validate_verdict_accepts_valid_verdict() {
    let seed = fake_seed();
    let keys = derive_keys(&seed).unwrap();
    let c = commit(&keys, b"claim");
    let v = Verdict::new(Choice::from(1u8), &c);
    assert!(validate_verdict(&v).is_ok());
}

#[test]
fn validate_verdict_rejects_all_zeros_transcript() {
    let v = Verdict::from_batch(Choice::from(1u8), &[0u8; 32]);
    assert!(validate_verdict(&v).is_err());
}

#[test]
fn validate_verdict_rejects_all_ones_transcript() {
    let v = Verdict::from_batch(Choice::from(1u8), &[0xFFu8; 32]);
    assert!(validate_verdict(&v).is_err());
}

#[test]
fn validate_verdict_strength_accepts_valid_verdict() {
    let seed = fake_seed();
    let keys = derive_keys(&seed).unwrap();
    let c = commit(&keys, b"claim");
    let v = Verdict::new(Choice::from(1u8), &c);
    assert!(validate_verdict_strength(&v).is_ok());
}

#[test]
fn validate_verdict_strength_rejects_biased_transcript() {
    let v = Verdict::from_batch(Choice::from(1u8), &[0xAAu8; 32]);
    assert!(validate_verdict_strength(&v).is_err());
}

#[test]
fn validate_verdict_strength_rejects_low_entropy() {
    let mut transcript = [0u8; 32];
    for i in 0..32 {
        transcript[i] = if i % 2 == 0 { 0x00 } else { 0x01 };
    }
    let v = Verdict::from_batch(Choice::from(1u8), &transcript);
    assert!(validate_verdict_strength(&v).is_err());
}

#[test]
fn verdict_multi_source_produces_different_transcript() {
    let seed = fake_seed();
    let keys = derive_keys(&seed).unwrap();
    let c = commit(&keys, b"claim");
    let v = Verdict::new(Choice::from(1u8), &c);
    let v_multi = verdict_multi_source(&v, b"additional context");
    assert_ne!(v.transcript(), v_multi.transcript());
    assert_eq!(v.is_valid().unwrap_u8(), v_multi.is_valid().unwrap_u8());
}

#[test]
fn verdict_scheme_trait_basic() {
    let seed = fake_seed();
    let keys = derive_keys(&seed).unwrap();
    let c = commit(&keys, b"claim");
    let v1 = Verdict::new(Choice::from(1u8), &c);
    let v2 = BasicVerdictScheme::new(Choice::from(1u8), &c);
    assert_eq!(v1.transcript(), v2.transcript());
    assert_eq!(v1.is_valid().unwrap_u8(), v2.is_valid().unwrap_u8());
}

#[test]
fn debug_text_exact_rendering() {
    let v = Verdict::from_batch(Choice::from(1u8), &[0xABu8; 32]);
    let s = String::from_utf8(v.debug_text()).unwrap();
    let expected = format!("Verdict {{ valid: 1, transcript: {} }}", "ab".repeat(32));
    assert_eq!(s, expected);
}

#[test]
fn statement_digest_verdict_differs_from_batch_verdict() {
    let d = [0x11u8; 32];
    let a = Verdict::from_statement_digest(Choice::from(1u8), &d);
    let b = Verdict::from_batch(Choice::from(1u8), &d);
    assert_ne!(a.transcript(), b.transcript());
    assert_eq!(b.transcript(), &d);
    assert_eq!(validate_verdict(&b), Ok(()));
    let z = Verdict::from_batch(Choice::from(0u8), &[0u8; 32]);
    assert_eq!(validate_verdict(&z), Err(VeilError::Crypto));
}
