use veil7::l1_entropy::{harvest, JitterSource, Seed};
use veil7::l2_keygen::{
    derive_hkdf, derive_keys, derive_keys_multi_source, validate_key_strength, validate_keys, KeyGenerator,
    MlDsa65Generator, MlKem768Generator,
};
use veil7::pq_backends::libcrux_backend;
use veil7::VeilError;

struct ClockJitter(u64);

impl JitterSource for ClockJitter {
    fn jitter(&mut self) -> [u8; 24] {
        self.0 = self.0.wrapping_add(1);
        let nanos = std::time::SystemTime::now()
            .duration_since(std::time::UNIX_EPOCH)
            .map(|d| d.as_nanos())
            .unwrap_or(0);
        let mut out = [0u8; 24];
        out[..16].copy_from_slice(&nanos.to_le_bytes());
        out[16..].copy_from_slice(&self.0.to_le_bytes());
        out
    }
}

fn fresh(p: &[u8]) -> Seed {
    harvest(p, &mut ClockJitter(0)).unwrap()
}

#[test]
fn derives_keys_from_seed() {
    let seed = fresh(b"l2");
    let keys = derive_keys(&seed).expect("keygen ok");
    let _vk_bytes = libcrux_backend::dsa_vk_bytes(&keys.dsa_kp);
    let _pk_bytes = libcrux_backend::kem_pk_bytes(&keys.kem_kp);
}

#[test]
fn keygen_is_deterministic_per_seed() {
    let seed1 = fresh(b"det");
    let raw = *seed1.as_bytes();
    let seed2 = Seed::from_bytes(&raw);
    let k1 = derive_keys(&seed1).unwrap();
    let k2 = derive_keys(&seed2).unwrap();
    assert_eq!(libcrux_backend::dsa_vk_bytes(&k1.dsa_kp), libcrux_backend::dsa_vk_bytes(&k2.dsa_kp), "deterministic sig keygen");
    assert_eq!(libcrux_backend::kem_pk_bytes(&k1.kem_kp), libcrux_backend::kem_pk_bytes(&k2.kem_kp), "deterministic kem keygen");
}

#[test]
fn different_seeds_produce_different_keys() {
    let seed_a = fresh(b"a");
    let seed_b = fresh(b"b");
    let k_a = derive_keys(&seed_a).unwrap();
    let k_b = derive_keys(&seed_b).unwrap();
    assert_ne!(
        libcrux_backend::dsa_vk_bytes(&k_a.dsa_kp),
        libcrux_backend::dsa_vk_bytes(&k_b.dsa_kp),
        "different seeds must produce different verifying keys"
    );
    assert_ne!(
        libcrux_backend::kem_pk_bytes(&k_a.kem_kp),
        libcrux_backend::kem_pk_bytes(&k_b.kem_kp),
        "different seeds must produce different encapsulation keys"
    );
}

#[test]
fn kem_and_sig_subseeds_are_domain_separated() {
    let seed = fresh(b"domain");
    let keys = derive_keys(&seed).unwrap();
    let kem_bytes = libcrux_backend::kem_pk_bytes(&keys.kem_kp);
    let sig_vk_bytes = libcrux_backend::dsa_vk_bytes(&keys.dsa_kp);
    assert_eq!(kem_bytes.len(), 1184, "KEM-768 pk length");
    assert_eq!(sig_vk_bytes.len(), 1952, "ML-DSA-65 vk length");
    assert_ne!(&kem_bytes[..16], &sig_vk_bytes[..16], "KEM and SIG sub-seed prefixes must be uncorrelated");
}

#[test]
fn derive_keys_does_not_leak_master_seed_via_subseeds() {
    let seed = fresh(b"leak");
    let keys = derive_keys(&seed).unwrap();
    let kem = libcrux_backend::kem_pk_bytes(&keys.kem_kp);
    let sig_vk = libcrux_backend::dsa_vk_bytes(&keys.dsa_kp);
    let master = seed.as_bytes();
    for window in 0..(kem.len() - master.len()) {
        assert_ne!(&kem[window..window + master.len()], master, "KEM pk at window {window} equals master seed (KDF leak)");
    }
    for window in 0..(sig_vk.len() - master.len()) {
        assert_ne!(&sig_vk[window..window + master.len()], master, "ML-DSA vk at window {window} equals master seed (KDF leak)");
    }
}

#[test]
fn derive_keys_validates_keys() {
    let seed = fresh(b"validate");
    let keys = derive_keys(&seed).unwrap();
    let _vk_bytes = libcrux_backend::dsa_vk_bytes(&keys.dsa_kp);
    let _pk_bytes = libcrux_backend::kem_pk_bytes(&keys.kem_kp);
    assert!(validate_keys(&keys).is_ok());
}

#[test]
fn derive_keys_validates_key_strength() {
    let seed = fresh(b"strength");
    let keys = derive_keys(&seed).unwrap();
    let pk_bytes = libcrux_backend::kem_pk_bytes(&keys.kem_kp);
    let vk_bytes = libcrux_backend::dsa_vk_bytes(&keys.dsa_kp);
    assert_eq!(pk_bytes.len(), 1184, "ML-KEM-768 pk must be 1184 bytes");
    assert_eq!(vk_bytes.len(), 1952, "ML-DSA-65 vk must be 1952 bytes");
    assert!(validate_key_strength(&keys).is_ok());
}

#[test]
fn derive_keys_multi_source_single_seed() {
    let seed = fresh(b"multi");
    let keys = derive_keys_multi_source(&[seed]).unwrap();
    let _vk_bytes = libcrux_backend::dsa_vk_bytes(&keys.dsa_kp);
    let _pk_bytes = libcrux_backend::kem_pk_bytes(&keys.kem_kp);
}

#[test]
fn derive_keys_multi_source_two_seeds() {
    let seed1 = fresh(b"multi1");
    let seed2 = fresh(b"multi2");
    let keys = derive_keys_multi_source(&[seed1, seed2]).unwrap();
    let _vk_bytes = libcrux_backend::dsa_vk_bytes(&keys.dsa_kp);
    let _pk_bytes = libcrux_backend::kem_pk_bytes(&keys.kem_kp);
}

#[test]
fn derive_keys_multi_source_empty_fails() {
    let result = derive_keys_multi_source(&[]);
    assert!(result.is_err(), "empty seeds should fail");
}

#[test]
fn derive_hkdf_works() {
    let seed = fresh(b"hkdf");
    let result = derive_hkdf::<64>(&seed, b"test");
    assert!(result.is_ok(), "HKDF should succeed");
    let output = result.unwrap();
    assert_eq!(output.len(), 64, "HKDF output should be 64 bytes");
    assert!(!output.iter().all(|&b| b == 0), "HKDF output should not be all zeros");
}

#[test]
fn crypto_agility_key_generator_trait() {
    let seed = fresh(b"agility");
    let kem_kp = MlKem768Generator::generate(&seed).unwrap();
    let _pk_bytes = libcrux_backend::kem_pk_bytes(&kem_kp);
    let dsa_kp = MlDsa65Generator::generate(&seed).unwrap();
    let _vk_bytes = libcrux_backend::dsa_vk_bytes(&dsa_kp);
}

#[test]
fn derive_hkdf_refuses_overlong_output() {
    let seed = Seed::from_bytes(&[1u8; 64]);
    assert_eq!(derive_hkdf::<8161>(&seed, b"t").err(), Some(VeilError::Crypto));
    assert!(derive_hkdf::<8160>(&seed, b"t").is_ok());
}

#[test]
fn multi_source_of_xor_equals_single_seed() {
    let a = [0x0Fu8; 64];
    let b = [0xF3u8; 64];
    let mut x = [0u8; 64];
    for i in 0..64 {
        x[i] = a[i] ^ b[i];
    }
    let k1 = derive_keys_multi_source(&[Seed::from_bytes(&a), Seed::from_bytes(&b)]).unwrap();
    let k2 = derive_keys(&Seed::from_bytes(&x)).unwrap();
    assert_eq!(libcrux_backend::kem_pk_bytes(&k1.kem_kp), libcrux_backend::kem_pk_bytes(&k2.kem_kp));
}
