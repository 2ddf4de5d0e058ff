use veil7::hybrid::{hybrid_attest, hybrid_attest_with_seed};
use veil7::l1_entropy::{JitterSource, Seed};
use veil7::l4_prove::MlDsaProver;
use veil7::l5_verify::MlDsaVerifier;
use veil7::{verify_once, verify_once_with_seed, Claim};

struct ClockJitter(u64);

impl JitterSource for ClockJitter {
    fn jitter(&mut self) -> [u8; 24] {
        self.0 = self.0.wrapping_add(1);
        let nanos = std::time::SystemTime::now()
            .duration_since(std::time::UNIX_EPOCH)
            .map(|d| d.as_nanos())
            .unwrap_or(0);
        let mut out = [0u8; 24];
        out[..16].copy_from_slice(&nanos.to_le_bytes());
        out[16..].copy_from_slice(&self.0.to_le_bytes());
        out
    }
}

#[test]
fn hybrid_attest_valid() {
    let claim = Claim::new(b"hybrid-test-data");
    let v = hybrid_attest(&claim, &mut ClockJitter(0)).unwrap();
    assert!(v.is_valid_bool());
}

#[test]
fn hybrid_differs_from_plain() {
    let claim = Claim::new(b"same-data");
    let v_plain = verify_once(&claim, &mut ClockJitter(0)).unwrap();
    let v_hybrid = hybrid_attest(&claim, &mut ClockJitter(0)).unwrap();
    assert!(v_plain.is_valid_bool() && v_hybrid.is_valid_bool());
    assert_ne!(v_plain.transcript(), v_hybrid.transcript());
}

#[test]
fn hybrid_deterministic_structure() {
    let claim = Claim::new(b"structure-test");
    let v1 = hybrid_attest(&claim, &mut ClockJitter(0)).unwrap();
    let v2 = hybrid_attest(&claim, &mut ClockJitter(0)).unwrap();
    assert!(v1.is_valid_bool() && v2.is_valid_bool());
}

#[test]
fn hybrid_with_same_seed_differs_from_plain_only_in_transcript() {
    let claim = Claim::new(b"seeded");
    let h = hybrid_attest_with_seed(Seed::from_bytes(&[3u8; 64]), &claim).unwrap();
    let p = verify_once_with_seed::<MlDsaProver, MlDsaVerifier>(Seed::from_bytes(&[3u8; 64]), &claim).unwrap();
    assert_eq!(h.is_valid_bool(), p.is_valid_bool());
    assert_ne!(h.transcript(), p.transcript());
    let h2 = hybrid_attest_with_seed(Seed::from_bytes(&[3u8; 64]), &claim).unwrap();
    assert_eq!(h.transcript(), h2.transcript());
}
