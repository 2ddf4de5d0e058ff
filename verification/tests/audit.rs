use sha3::digest::{ExtendableOutput, Update, XofReader};
use sha3::Shake256;
use veil7::audit::{verify_batch_transcripts, verify_chain_attestation};
use veil7::chain::chain_root;
use veil7::common::domain;

#[test]
fn test_verify_chain_attestation_valid() {
    let events: &[&[u8]] = &[b"login:alice", b"read:/data", b"logout:alice"];
    let root = chain_root(events).expect("non-empty");
    let result = verify_chain_attestation(events, &root);
    assert_eq!(result.unwrap_u8(), 1, "valid chain must verify against its own root");
}

#[test]
fn test_verify_chain_attestation_tampered() {
    let events: &[&[u8]] = &[b"login:alice", b"read:/data", b"logout:alice"];
    let tampered: &[&[u8]] = &[b"login:alice", b"read:/SECRETS", b"logout:alice"];
    let root = chain_root(events).expect("non-empty");
    let result = verify_chain_attestation(tampered, &root);
    assert_eq!(result.unwrap_u8(), 0, "tampered events must not verify against original root");
}

#[test]
fn test_verify_batch_transcripts_valid() {
    let t0 = [0xAAu8; 32];
    let t1 = [0xBBu8; 32];
    let t2 = [0xCCu8; 32];
    let transcripts: &[[u8; 32]] = &[t0, t1, t2];
    let mut xof = Shake256::default();
    xof.update(&domain::BATCH_HEAD);
    for (i, t) in transcripts.iter().enumerate() {
        xof.update(&domain::BATCH_STEP);
        xof.update(&(i as u64).to_le_bytes());
        xof.update(t);
    }
    let mut expected = [0u8; 32];
    xof.finalize_xof().read(&mut expected);
    let result = verify_batch_transcripts(transcripts, &expected);
    assert_eq!(result.unwrap_u8(), 1, "batch transcripts must verify against correct fold");
}

#[test]
fn verify_batch_transcripts_rejects_empty_and_wrong() {
    let empty: &[[u8; 32]] = &[];
    assert_eq!(verify_batch_transcripts(empty, &[0u8; 32]).unwrap_u8(), 0);
    let transcripts: &[[u8; 32]] = &[[1u8; 32]];
    assert_eq!(verify_batch_transcripts(transcripts, &[0u8; 32]).unwrap_u8(), 0);
}
