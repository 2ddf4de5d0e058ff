use veil7::blind::{blind_attest, blind_claim as blind_with, BlindFactor};
use veil7::chain::chain_root;
use veil7::commit_reveal::commit_phase;
use veil7::interface::{
    attest_batch, attest_batch_texts, attest_blinded, attest_bytes, attest_chain, attest_chain_entry, attest_structured,
    attest_text, attest_with_vm, blind_claim, check_chain, unblind_verdict,
};
use veil7::l1_entropy::JitterSource;
use veil7::VeilError;

struct ClockJitter(u64);

impl JitterSource for ClockJitter {
    fn jitter(&mut self) -> [u8; 24] {
        self.0 = self.0.wrapping_add(1);
        let nanos = std::time::SystemTime::now()
            .duration_since(std::time::UNIX_EPOCH)
            .map(|d| d.as_nanos())
            .unwrap_or(0);
        let mut out = [0u8; 24];
        out[..16].copy_from_slice(&nanos.to_le_bytes());
        out[16..].copy_from_slice(&self.0.to_le_bytes());
        out
    }
}

fn j() -> ClockJitter {
    ClockJitter(0)
}

#[test]
fn attest_structured_produces_valid_verdict() {
    let v = attest_structured(b"audit", b"some payload", &mut j()).unwrap();
    assert!(v.is_valid_bool());
}

#[test]
fn attest_structured_different_labels_different_transcripts() {
    let v1 = attest_structured(b"label-A", b"payload", &mut j()).unwrap();
    let v2 = attest_structured(b"label-B", b"payload", &mut j()).unwrap();
    assert!(v1.is_valid_bool() && v2.is_valid_bool());
    assert_ne!(v1.transcript(), v2.transcript(), "different personalization must produce different transcripts");
}

#[test]
fn attest_with_vm_produces_valid_verdict() {
    let v = attest_with_vm(b"test data for VM pipeline").unwrap();
    assert!(v.is_valid_bool());
}

#[test]
fn attest_with_vm_differs_from_plain() {
    let v_plain = attest_bytes(b"same data", &mut j()).unwrap();
    let v_vm = attest_with_vm(b"same data").unwrap();
    assert_ne!(v_plain.transcript(), v_vm.transcript());
}

#[test]
fn attest_batch_all_valid() {
    let items: &[&[u8]] = &[b"alpha", b"beta", b"gamma"];
    let v = attest_batch(items, &mut j()).unwrap();
    assert!(v.is_valid_bool(), "all items valid → batch valid");
}

#[test]
fn attest_batch_empty_fails() {
    let items: &[&[u8]] = &[];
    assert!(attest_batch(items, &mut j()).is_err());
}

#[test]
fn attest_batch_single_item() {
    let items: &[&[u8]] = &[b"solo"];
    let v = attest_batch(items, &mut j()).unwrap();
    assert!(v.is_valid_bool());
}

#[test]
fn attest_batch_deterministic_transcript_for_same_items() {
    let items: &[&[u8]] = &[b"x", b"y"];
    let v1 = attest_batch(items, &mut j()).unwrap();
    let v2 = attest_batch(items, &mut j()).unwrap();
    assert!(v1.is_valid_bool() && v2.is_valid_bool());
}

#[test]
fn attest_batch_texts_works() {
    let texts: &[&str] = &["hello", "world", "foo"];
    let v = attest_batch_texts(texts, &mut j()).unwrap();
    assert!(v.is_valid_bool());
}

#[test]
fn check_chain_matches_chain_root() {
    let events: &[&[u8]] = &[b"login", b"read", b"logout"];
    let root = chain_root(events).unwrap();
    assert!(check_chain(events, &root));
}

#[test]
fn check_chain_detects_tamper() {
    let events: &[&[u8]] = &[b"login", b"read", b"logout"];
    let root = chain_root(events).unwrap();
    let tampered: &[&[u8]] = &[b"login", b"WRITE", b"logout"];
    assert!(!check_chain(tampered, &root));
}

#[test]
fn interface_blind_attest_roundtrip() {
    let claim = b"secret-data";
    let (blinded, factor) = blind_claim(claim).unwrap();
    let verdict = attest_blinded(&blinded, &mut j()).unwrap();
    assert!(verdict.is_valid_bool());
    let unblinded = unblind_verdict(&verdict, &factor);
    assert_ne!(unblinded, [0u8; 32]);
}

#[test]
fn blind_double_blind_recovers_original() {
    let claim = b"test-data";
    let factor = BlindFactor::from_nonce([0x42; 32]);
    let blinded = blind_with(claim, &factor);
    let recovered = blind_with(&blinded, &factor);
    assert_eq!(&recovered[..], claim);
}

#[test]
fn attest_chain_entry_single() {
    let result = attest_chain_entry(b"first-event", None, &mut j()).unwrap();
    assert!(result.is_valid_bool());
}

#[test]
fn attest_chain_entry_chained() {
    let v1 = attest_chain_entry(b"event-1", None, &mut j()).unwrap();
    let v2 = attest_chain_entry(b"event-2", Some(v1.transcript()), &mut j()).unwrap();
    assert!(v2.is_valid_bool());
    let v3 = attest_chain_entry(b"event-3", Some(v2.transcript()), &mut j()).unwrap();
    assert!(v3.is_valid_bool());
    assert_ne!(v1.transcript(), v2.transcript());
    assert_ne!(v2.transcript(), v3.transcript());
}

#[test]
fn attest_text_basic() {
    let v = attest_text("hello world", &mut j()).unwrap();
    assert!(v.is_valid_bool());
}

#[test]
fn attest_text_empty() {
    let v = attest_text("", &mut j()).unwrap();
    assert!(v.is_valid_bool());
}

#[test]
fn attest_text_unicode() {
    let v = attest_text("Hello 世界 🌍", &mut j()).unwrap();
    assert!(v.is_valid_bool());
}

#[test]
fn attest_text_large() {
    let large = "A".repeat(100_000);
    let v = attest_text(&large, &mut j()).unwrap();
    assert!(v.is_valid_bool());
}

#[test]
fn attest_text_different_inputs_different_transcripts() {
    let v1 = attest_text("input A", &mut j()).unwrap();
    let v2 = attest_text("input B", &mut j()).unwrap();
    assert!(v1.is_valid_bool());
    assert!(v2.is_valid_bool());
}

#[test]
fn attest_bytes_empty_input() {
    let v = attest_bytes(b"", &mut j()).unwrap();
    assert!(v.is_valid_bool());
}

#[test]
fn attest_bytes_very_large_input() {
    let large = vec![0xAAu8; 100_000];
    let v = attest_bytes(&large, &mut j()).unwrap();
    assert!(v.is_valid_bool());
}

#[test]
fn chain_root_single_event() {
    let root = chain_root(&[b"single"]).unwrap();
    assert_ne!(root, [0u8; 32]);
}

#[test]
fn commit_phase_empty_input() {
    let result = commit_phase(b"");
    assert!(result.is_ok());
}

#[test]
fn blind_attest_empty_claim() {
    let result = blind_attest(b"", &mut j());
    assert!(result.is_ok());
}

#[test]
fn attest_chain_rejects_empty_and_attests_root() {
    let empty: &[&[u8]] = &[];
    assert!(matches!(attest_chain(empty, &mut j()), Err(VeilError::Crypto)));
    let events: &[&[u8]] = &[b"a", b"b"];
    assert!(attest_chain(events, &mut j()).unwrap().is_valid_bool());
}

#[test]
fn file_chain_attestor_frames_like_chain_root() {
    let mut files = veil7::interface::FileChainAttestor::new();
    assert!(files.add_chunk(b"orphan").is_err(), "a chunk before any file is refused");
    files.start_file(b"a.txt").unwrap();
    files.add_chunk(b"hello ").unwrap();
    files.add_chunk(b"world").unwrap();
    files.start_file(b"b.txt").unwrap();
    let mut state = veil7::ChainState::new();
    let parts: &[&[u8]] = &[b"hello ", b"world"];
    state.absorb_file(b"a.txt", parts);
    state.absorb_file(b"b.txt", &[]);
    let events: &[&[u8]] = &[b"a.txt", b"hello ", b"world", b"b.txt"];
    assert_eq!(state.finalize().unwrap(), chain_root(events).unwrap());
    match files.attest(&mut ClockJitter(0)) {
        Ok(v) => assert_eq!(v.transcript().len(), 32),
        Err(_) => panic!("attestation of a non-empty file chain failed"),
    }
}

#[test]
fn file_chain_attestor_without_files_fails() {
    let files = veil7::interface::FileChainAttestor::new();
    assert!(matches!(files.attest(&mut ClockJitter(0)), Err(VeilError::Crypto)));
}

#[test]
fn attest_chain_state_refuses_empty_state() {
    let state = veil7::ChainState::new();
    assert!(matches!(veil7::interface::attest_chain_state(state, &mut ClockJitter(0)), Err(VeilError::Crypto)));
}
