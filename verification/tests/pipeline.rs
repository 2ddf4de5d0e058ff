use subtle::Choice;
use veil7::audit::verify_batch_transcripts;
use veil7::l1_entropy::{JitterSource, Seed};
use veil7::l4_prove::MlDsaProver;
use veil7::l5_verify::MlDsaVerifier;
use veil7::pipeline::batch_verdict;
use veil7::{verify_batch, verify_once, verify_once_with, verify_once_with_seed, verify_once_with_vm, Claim, Verdict, VeilError};

struct ClockJitter(u64);

impl JitterSource for ClockJitter {
    fn jitter(&mut self) -> [u8; 24] {
        self.0 = self.0.wrapping_add(1);
        let nanos = std::time::SystemTime::now()
            .duration_since(std::time::UNIX_EPOCH)
            .map(|d| d.as_nanos())
            .unwrap_or(0);
        let mut out = [0u8; 24];
        out[..16].copy_from_slice(&nanos.to_le_bytes());
        out[16..].copy_from_slice(&self.0.to_le_bytes());
        out
    }
}

#[test]
fn end_to_end_valid_claim() {
    let claim = Claim::new(b"the sky is blue");
    let verdict = verify_once(&claim, &mut ClockJitter(0)).expect("pipeline ok");
    assert!(verdict.is_valid_bool(), "honest claim must verify");
    assert_eq!(verdict.transcript().len(), 32);
}

#[test]
fn statelessness_two_runs_independent_transcripts() {
    let claim = Claim::new(b"same claim");
    let v1 = verify_once(&claim, &mut ClockJitter(0)).unwrap();
    let v2 = verify_once(&claim, &mut ClockJitter(0)).unwrap();
    assert!(v1.is_valid_bool() && v2.is_valid_bool());
    assert_ne!(v1.transcript(), v2.transcript(), "each iteration is a fresh, independent identity");
}

#[test]
fn many_iterations_all_valid() {
    for i in 0..16u8 {
        let data = [i; 8];
        let claim = Claim::new(&data);
        let v = verify_once(&claim, &mut ClockJitter(0)).unwrap();
        assert!(v.is_valid_bool());
    }
}

#[test]
fn seed_based_verify_once_valid() {
    let seed = Seed::from_bytes(&[0xA5u8; 64]);
    let claim = Claim::new(b"seed-based claim");
    let verdict = verify_once_with_seed::<MlDsaProver, MlDsaVerifier>(seed, &claim).expect("ok");
    assert!(verdict.is_valid_bool(), "honest claim with seed must verify");
}

#[test]
fn vm_pipeline_runs_without_panic() {
    let claim = Claim::new(b"vm claim");
    let verdict = verify_once_with_vm(&claim).expect("vm pipeline ok");
    assert!(verdict.is_valid_bool());
}

#[test]
fn seed_pipeline_is_deterministic() {
    let claim = Claim::new(b"fixed");
    let a = verify_once_with_seed::<MlDsaProver, MlDsaVerifier>(Seed::from_bytes(&[7u8; 64]), &claim).unwrap();
    let b = verify_once_with_seed::<MlDsaProver, MlDsaVerifier>(Seed::from_bytes(&[7u8; 64]), &claim).unwrap();
    assert_eq!(a.transcript(), b.transcript());
    let c = verify_once_with::<MlDsaProver, MlDsaVerifier, _>(&claim, &mut ClockJitter(0)).unwrap();
    assert!(c.is_valid_bool());
}

#[test]
fn verify_batch_rejects_empty_and_folds_members() {
    let empty: &[Claim] = &[];
    assert!(matches!(verify_batch(empty, &mut ClockJitter(0)), Err(VeilError::Crypto)));
    let claims = [Claim::new(b"a"), Claim::new(b"b")];
    let v = verify_batch(&claims, &mut ClockJitter(0)).unwrap();
    assert!(v.is_valid_bool());
}

#[test]
fn batch_verdict_bit_is_and_and_transcript_audits() {
    let members = vec![
        Verdict::from_batch(Choice::from(1u8), &[1u8; 32]),
        Verdict::from_batch(Choice::from(0u8), &[2u8; 32]),
    ];
    let b = batch_verdict(&members);
    assert!(!b.is_valid_bool(), "one failing member fails the batch");
    let ts = [[1u8; 32], [2u8; 32]];
    assert_eq!(verify_batch_transcripts(&ts, b.transcript()).unwrap_u8(), 1);
    let all_ok = vec![Verdict::from_batch(Choice::from(1u8), &[3u8; 32])];
    assert!(batch_verdict(&all_ok).is_valid_bool());
}
