use hkdf::Hkdf;
use sha2::Sha256;
use sha3::digest::{ExtendableOutput, Update, XofReader};
use sha3::Shake256;
use subtle::Choice;
use veil7::blind::{blind_claim, BlindFactor};
use veil7::chain::chain_root;
use veil7::common::domain;
use veil7::entropy_sources::EntropySource;
use veil7::hybrid::hybrid_attest_with_seed;
use veil7::entropy_sources::{hw_counter, stack_addr, thread_id, wall_clock};
use veil7::l1_entropy::{multi_source_seed, Seed, SourceReadings};
use veil7::l2_keygen::{derive_hkdf, derive_keys};
use veil7::l3_commit::{commit, commit_multi_source};
use veil7::l4_prove::derive_sig_randomness;
use veil7::l7_emit::{verdict_multi_source, Verdict};
use veil7::pq_backends::libcrux_backend::{dsa_keygen, dsa_vk_bytes, kem_keygen, kem_pk_bytes};
use veil7::Claim;

fn shake(parts: &[&[u8]], n: usize) -> Vec<u8> {
    let mut xof = Shake256::default();
    for p in parts {
        xof.update(p);
    }
    let mut out = vec![0u8; n];
    xof.finalize_xof().read(&mut out);
    out
}

#[test]
fn keys_come_from_tagged_shake_subseeds() {
    let raw = [0x21u8; 64];
    let keys = derive_keys(&Seed::from_bytes(&raw)).unwrap();
    let mut kem_seed = [0u8; 64];
    kem_seed.copy_from_slice(&shake(&[&domain::KEM_SEED, &raw], 64));
    let mut sig_seed = [0u8; 32];
    sig_seed.copy_from_slice(&shake(&[&domain::SIG_SEED, &raw], 32));
    assert_eq!(kem_pk_bytes(&keys.kem_kp), kem_pk_bytes(&kem_keygen(kem_seed)));
    assert_eq!(dsa_vk_bytes(&keys.dsa_kp), dsa_vk_bytes(&dsa_keygen(sig_seed)));
}

#[test]
fn commitment_formula() {
    let keys = derive_keys(&Seed::from_bytes(&[0x22u8; 64])).unwrap();
    let c = commit(&keys, b"claim");
    let expected = shake(
        &[&domain::COMMITMENT, kem_pk_bytes(&keys.kem_kp), dsa_vk_bytes(&keys.dsa_kp), b"claim"],
        32,
    );
    assert_eq!(&c.0[..], &expected[..]);
    let cm = commit_multi_source(&keys, b"claim", b"ctx");
    let expected_m = shake(
        &[&domain::COMMITMENT, kem_pk_bytes(&keys.kem_kp), dsa_vk_bytes(&keys.dsa_kp), b"claim", b"ctx"],
        32,
    );
    assert_eq!(&cm.0[..], &expected_m[..]);
}

#[test]
fn verdict_transcript_formulas() {
    let keys = derive_keys(&Seed::from_bytes(&[0x23u8; 64])).unwrap();
    let c = commit(&keys, b"x");
    let v = Verdict::new(Choice::from(1u8), &c);
    assert_eq!(&v.transcript()[..], &shake(&[&domain::TRANSCRIPT, &c.0], 32)[..]);
    let m = verdict_multi_source(&v, b"more");
    assert_eq!(&m.transcript()[..], &shake(&[&domain::TRANSCRIPT, v.transcript(), b"more"], 32)[..]);
    let d = [0x44u8; 32];
    let s = Verdict::from_statement_digest(Choice::from(0u8), &d);
    assert_eq!(&s.transcript()[..], &shake(&[&domain::TRANSCRIPT, &d], 32)[..]);
    assert!(!s.is_valid_bool());
}

#[test]
fn chain_root_formula() {
    let events: &[&[u8]] = &[b"e1", b"e2"];
    let root = chain_root(events).unwrap();
    let expected = shake(&[&domain::CHAIN_HEAD, &domain::CHAIN_STEP, b"e1", &domain::CHAIN_STEP, b"e2"], 32);
    assert_eq!(&root[..], &expected[..]);
}

#[test]
fn whiten_formula() {
    let raw = [0x5Cu8; 64];
    let s = EntropySource::from_raw("w", &domain::ENTROPY_SOURCE_WALL_CLOCK, raw);
    assert_eq!(&s.whiten()[..], &shake(&[&domain::ENTROPY_SOURCE_WALL_CLOCK, &raw], 64)[..]);
}

#[test]
fn blind_mask_formula() {
    let nonce = [0x66u8; 32];
    let factor = BlindFactor::from_nonce(nonce);
    let mask = shake(&[&veil7::blind::BLIND_MASK, &nonce], 32);
    let blinded = blind_claim(&[0u8; 40], &factor);
    for i in 0..40 {
        assert_eq!(blinded[i], mask[i % 32]);
    }
}

#[test]
fn signing_randomness_formula() {
    let keys = derive_keys(&Seed::from_bytes(&[0x24u8; 64])).unwrap();
    let c = commit(&keys, b"y");
    let r = derive_sig_randomness(&c);
    assert_eq!(&r[..], &shake(&[&veil7::l4_prove::SIG_RANDOMNESS, &c.0], 32)[..]);
}

#[test]
fn hkdf_formula() {
    let raw = [0x25u8; 64];
    let out = derive_hkdf::<48>(&Seed::from_bytes(&raw), b"salt-tag").unwrap();
    let hk = Hkdf::<Sha256>::new(Some(b"salt-tag"), &raw);
    let mut expected = [0u8; 48];
    hk.expand(&veil7::l2_keygen::KDF_INFO, &mut expected).unwrap();
    assert_eq!(out, expected);
}

#[test]
fn hybrid_transcript_formula() {
    let raw = [0x26u8; 64];
    let claim = Claim::new(b"h");
    let v = hybrid_attest_with_seed(Seed::from_bytes(&raw), &claim).unwrap();
    let keys = derive_keys(&Seed::from_bytes(&raw)).unwrap();
    let c = commit(&keys, b"h");
    assert_eq!(&v.transcript()[..], &shake(&[&veil7::hybrid::HYBRID_BIND, &c.0], 32)[..]);
}

#[test]
fn multi_source_seed_formula() {
    let readings = SourceReadings {
        wall_nanos: 1_700_000_000_123_456_789,
        stack_addr: 0x7ffd_0000_1000,
        thread_id_hash: 7,
        elapsed_nanos: 4242,
        counter_wall_nanos: 1_700_000_000_123_460_000,
    };
    let primary = [0x11u8; 64];
    let secondary = [0x22u8; 64];
    let whitens = |with_secondary: bool| {
        let mut ws: Vec<Vec<u8>> = vec![shake(&[&domain::ENTROPY_SOURCE_OS_PRIMARY, &primary], 64)];
        if with_secondary {
            ws.push(shake(&[&domain::ENTROPY_SOURCE_OS_SECONDARY, &secondary], 64));
        }
        ws.push(wall_clock(readings.wall_nanos).whiten().to_vec());
        ws.push(stack_addr(readings.stack_addr).whiten().to_vec());
        ws.push(thread_id(readings.thread_id_hash).whiten().to_vec());
        ws.push(hw_counter(readings.elapsed_nanos, readings.counter_wall_nanos).whiten().to_vec());
        let mut pool = [0u8; 64];
        for w in &ws {
            for k in 0..64 {
                pool[k] ^= w[k];
            }
        }
        shake(&[&domain::ENTROPY_FINALIZE, b"ctx", &pool], 64)
    };
    let with = multi_source_seed(b"ctx", &primary, Some(&secondary), &readings);
    assert_eq!(with.as_bytes().to_vec(), whitens(true));
    let without = multi_source_seed(b"ctx", &primary, None, &readings);
    assert_eq!(without.as_bytes().to_vec(), whitens(false));
    assert_ne!(with.as_bytes(), without.as_bytes(), "the secondary source changes the seed");
}

#[test]
fn commit_with_nonce_formula() {
    let nonce = [0x5Au8; 32];
    let claim = b"commit-me";
    let t = veil7::commit_reveal::commit_with_nonce(&nonce, claim);
    let expected = shake(&[b"veil7:cr:commit:v1", &nonce, claim], 32);
    assert_eq!(t.as_bytes().to_vec(), expected);
    let again = veil7::commit_reveal::commit_with_nonce(&nonce, claim);
    assert_eq!(t.as_bytes(), again.as_bytes());
    assert!(veil7::commit_reveal::reveal_check(&t, &nonce, claim).is_ok());
}
