use veil7::blind::{blind_attest, blind_claim, unblind_transcript, BlindFactor};
use veil7::l1_entropy::JitterSource;
use veil7::{verify_once, Claim};

struct ClockJitter(u64);

impl JitterSource for ClockJitter {
    fn jitter(&mut self) -> [u8; 24] {
        self.0 = self.0.wrapping_add(1);
        let nanos = std::time::SystemTime::now()
            .duration_since(std::time::UNIX_EPOCH)
            .map(|d| d.as_nanos())
            .unwrap_or(0);
        let mut out = [0u8; 24];
        out[..16].copy_from_slice(&nanos.to_le_bytes());
        out[16..].copy_from_slice(&self.0.to_le_bytes());
        out
    }
}

#[test]
fn blind_blind_attest_roundtrip() {
    let claim = b"secret-auction-bid:5000";
    let (verdict, unblinded) = blind_attest(claim, &mut ClockJitter(0)).unwrap();
    assert!(verdict.is_valid_bool());
    assert_ne!(unblinded, [0u8; 32], "unblinded transcript must be non-zero");
}

#[test]
fn blinded_claim_differs_from_original() {
    let claim = b"plaintext-data";
    let factor = BlindFactor::fresh().unwrap();
    let blinded = blind_claim(claim, &factor);
    assert_ne!(&blinded[..], &claim[..], "blinded must differ from original");
}

#[test]
fn blind_unblind_is_deterministic_for_same_factor() {
    let claim = b"same-claim";
    let nonce = [0x42u8; 32];
    let f1 = BlindFactor::from_nonce(nonce);
    let f2 = BlindFactor::from_nonce(nonce);
    let b1 = blind_claim(claim, &f1);
    let b2 = blind_claim(claim, &f2);
    assert_eq!(b1, b2, "same nonce → same blinded output");
}

#[test]
fn different_nonces_produce_different_blinds() {
    let claim = b"same-claim";
    let f1 = BlindFactor::from_nonce([0x01; 32]);
    let f2 = BlindFactor::from_nonce([0x02; 32]);
    let b1 = blind_claim(claim, &f1);
    let b2 = blind_claim(claim, &f2);
    assert_ne!(b1, b2);
}

#[test]
fn double_blind_recovers_original() {
    let claim = b"round-trip-test";
    let factor = BlindFactor::fresh().unwrap();
    let blinded = blind_claim(claim, &factor);
    let unblinded = blind_claim(&blinded, &factor);
    assert_eq!(&unblinded[..], &claim[..]);
}

#[test]
fn unblinded_transcript_differs_from_raw() {
    let claim = b"test";
    let factor = BlindFactor::fresh().unwrap();
    let blinded = blind_claim(claim, &factor);
    let verdict = verify_once(&Claim::new(&blinded), &mut ClockJitter(0)).unwrap();
    let unblinded = unblind_transcript(verdict.transcript(), &factor);
    assert_ne!(&unblinded[..], &verdict.transcript()[..]);
}

#[test]
fn blind_mask_cycles_every_32_bytes() {
    let factor = BlindFactor::from_nonce([0x07; 32]);
    let zeros = [0u8; 64];
    let blinded = blind_claim(&zeros, &factor);
    assert_eq!(&blinded[..32], &blinded[32..], "the 32-byte mask repeats");
    assert_eq!(blind_claim(b"", &factor).len(), 0);
}
