//! L2 — ephemeral key derivation.
//!
//! The 64-byte master seed is stretched by domain-tagged SHAKE256 into two
//! independent sub-seeds: 64 bytes for ML-KEM-768 and 32 bytes for
//! ML-DSA-65. Distinct tags make the two sub-seeds unrelated. The key pairs
//! are a deterministic function of the seed; the sub-seeds are wiped as soon
//! as the key pairs exist, and the secret keys are wiped when the keys drop.

use crate::bytes::to_array_32;
use crate::bytes::to_array_64;
use crate::common::domain;
use crate::kdf::{hkdf_expand_into, hkdf_sha256, HKDF_SHA256_MAX};
use crate::l0_memlock::{secure_zero, zeroize_bytes};
use crate::l1_entropy::{spec_xor_fold, Seed};
use crate::pq_backends::libcrux_backend::{
    dsa_keygen, dsa_vk_bytes, kem_keygen, signatures_verify, kem_pk_bytes, ml_dsa_65_keypair, ml_kem_768_keypair, validate_dsa_vk,
    validate_kem_pk, MLDSA65KeyPair, MlKem768KeyPair, DSA_VK_SIZE, KEM_PK_SIZE,
};
use crate::xof::{shake2, shake256};
use crate::VeilError;
use vstd::prelude::*;

verus! {

/// The HKDF `info` string of the key generators.
pub const KDF_INFO: [u8; 12] = [0x76, 0x65, 0x69, 0x6c, 0x37, 0x3a, 0x6b, 0x64, 0x66, 0x3a, 0x76, 0x31]; // "veil7:kdf:v1"

/// A key-pair generator for one primitive.
pub trait KeyGenerator {
    /// The key pair it produces.
    type KeyPair;

    /// Generate a key pair deterministically from the seed.
    fn generate(seed: &Seed) -> Result<Self::KeyPair, VeilError>;
}

/// ML-KEM-768 through HKDF-SHA-256.
pub struct MlKem768Generator;

/// ML-DSA-65 through HKDF-SHA-256.
pub struct MlDsa65Generator;

impl KeyGenerator for MlKem768Generator {
    type KeyPair = MlKem768KeyPair;

    fn generate(seed: &Seed) -> (r: Result<MlKem768KeyPair, VeilError>)
        ensures
            r matches Ok(kp) && kp@ == ml_kem_768_keypair(hkdf_sha256(domain::KEM_SEED@, seed@, KDF_INFO@, 64)),
    {
        let kem_seed = derive_hkdf::<64>(seed, &domain::KEM_SEED)?;
        Ok(kem_keygen(kem_seed))
    }
}

impl KeyGenerator for MlDsa65Generator {
    type KeyPair = MLDSA65KeyPair;

    fn generate(seed: &Seed) -> (r: Result<MLDSA65KeyPair, VeilError>)
        ensures
            r matches Ok(kp) && kp@ == ml_dsa_65_keypair(hkdf_sha256(domain::SIG_SEED@, seed@, KDF_INFO@, 32))
                && signatures_verify(kp@),
    {
        let sig_seed = derive_hkdf::<32>(seed, &domain::SIG_SEED)?;
        Ok(dsa_keygen(sig_seed))
    }
}

/// The per-iteration key material.
pub struct EphemeralKeys {
    /// The ML-KEM-768 key pair.
    pub kem_kp: MlKem768KeyPair,
    /// The ML-DSA-65 key pair.
    pub dsa_kp: MLDSA65KeyPair,
}

/// The key material as byte strings: `((kem pk, kem sk), (dsa sk, dsa vk))`.
pub type KeysView = ((Seq<u8>, Seq<u8>), (Seq<u8>, Seq<u8>));

impl View for EphemeralKeys {
    type V = KeysView;

    open spec fn view(&self) -> KeysView {
        (self.kem_kp@, self.dsa_kp@)
    }
}

impl Drop for EphemeralKeys {
    /// Wipe both secret keys.
    fn drop(&mut self)
        opens_invariants none
        no_unwind
    {
        secure_zero(&mut self.kem_kp.sk.bytes);
        secure_zero(&mut self.dsa_kp.signing_key.bytes);
    }
}

/// The `n`-byte sub-seed SHAKE256 derives from a tag and the master seed.
pub open spec fn spec_subseed(tag: Seq<u8>, seed: Seq<u8>, n: nat) -> Seq<u8> {
    shake256(tag + seed, n)
}

/// The key material `derive_keys` produces from a master seed.
pub open spec fn spec_keys(seed: Seq<u8>) -> KeysView {
    (
        ml_kem_768_keypair(spec_subseed(domain::KEM_SEED@, seed, 64)),
        ml_dsa_65_keypair(spec_subseed(domain::SIG_SEED@, seed, 32)),
    )
}

/// HKDF-SHA-256 with the tag as salt, the seed as input key material and
/// `KDF_INFO` as info. Fails with `Crypto` exactly when `N` exceeds what
/// HKDF-SHA-256 can produce.
pub fn derive_hkdf<const N: usize>(seed: &Seed, tag: &[u8]) -> (r: Result<[u8; N], VeilError>)
    ensures
        r is Ok == (N <= HKDF_SHA256_MAX),
        r matches Ok(out) ==> out@ == hkdf_sha256(tag@, seed@, KDF_INFO@, N as nat),
        r matches Err(e) ==> e == VeilError::Crypto,
{
    let mut out = [0u8; N];
    match hkdf_expand_into(tag, seed.as_bytes(), &KDF_INFO, &mut out) {
        Ok(()) => Ok(out),
        Err(_) => {
            zeroize_bytes(&mut out);
            Err(VeilError::Crypto)
        },
    }
}

/// Derive both key pairs from the master seed; the sub-seeds are wiped once
/// the key pairs exist. Validation of the key sizes always passes.
pub fn derive_keys(seed: &Seed) -> (r: Result<EphemeralKeys, VeilError>)
    ensures
        r matches Ok(k) && k@ == spec_keys(seed@),
        signatures_verify(spec_keys(seed@).1),
{
    let kem_sub = shake2(&domain::KEM_SEED, seed.as_bytes(), 64);
    let mut kem_seed_bytes = to_array_64(&kem_sub);
    let kem_kp = kem_keygen(kem_seed_bytes);
    zeroize_bytes(&mut kem_seed_bytes);

    let sig_sub = shake2(&domain::SIG_SEED, seed.as_bytes(), 32);
    let mut sig_seed_bytes = to_array_32(&sig_sub);
    let dsa_kp = dsa_keygen(sig_seed_bytes);
    zeroize_bytes(&mut sig_seed_bytes);

    let keys = EphemeralKeys { kem_kp, dsa_kp };
    validate_keys(&keys)?;
    validate_key_strength(&keys)?;
    Ok(keys)
}

/// The XOR of the seeds' bytes.
pub open spec fn spec_combined_seed(seeds: Seq<Seed>) -> Seq<u8> {
    spec_xor_fold(seeds.map_values(|s: Seed| s@))
}

/// Derive keys from the XOR of several seeds. Fails with `Crypto` on an
/// empty list.
pub fn derive_keys_multi_source(seeds: &[Seed]) -> (r: Result<EphemeralKeys, VeilError>)
    ensures
        seeds@.len() == 0 ==> (r matches Err(e) && e == VeilError::Crypto),
        seeds@.len() > 0 ==> (r matches Ok(k) && k@ == spec_keys(spec_combined_seed(seeds@))
            && signatures_verify(k@.1)),
{
    if seeds.len() == 0 {
        return Err(VeilError::Crypto);
    }
    let ghost views = seeds@.map_values(|s: Seed| s@);
    let mut combined_seed = [0u8; 64];
    assert(combined_seed@ =~= spec_xor_fold(views.subrange(0, 0)));
    let mut k: usize = 0;
    while k < seeds.len()
        invariant
            k <= seeds@.len(),
            views == seeds@.map_values(|s: Seed| s@),
            combined_seed@ == spec_xor_fold(views.subrange(0, k as int)),
        decreases seeds@.len() - k,
    {
        let bytes = seeds[k].as_bytes();
        let ghost before = combined_seed@;
        let mut i: usize = 0;
        while i < 64
            invariant
                i <= 64,
                before.len() == 64,
                bytes@.len() == 64,
                forall|m: int| i <= m < 64 ==> combined_seed@[m] == before[m],
                forall|m: int| 0 <= m < i ==> combined_seed@[m] == before[m] ^ bytes@[m],
            decreases 64 - i,
        {
            combined_seed[i] = combined_seed[i] ^ bytes[i];
            i = i + 1;
        }
        proof {
            let next = views.subrange(0, k + 1);
            assert(next.drop_last() =~= views.subrange(0, k as int));
            assert(next.last() == bytes@);
            assert(combined_seed@ =~= spec_xor_fold(next));
        }
        k = k + 1;
    }
    assert(views.subrange(0, seeds@.len() as int) =~= views);
    let combined = Seed::from_bytes(&combined_seed);
    zeroize_bytes(&mut combined_seed);
    derive_keys(&combined)
}

/// Check the public key sizes: the KEM public key is 1184 bytes and the
/// verification key 1952. The array types fix both, so this always passes.
pub fn validate_keys(keys: &EphemeralKeys) -> (r: Result<(), VeilError>)
    ensures
        r is Ok,
{
    let pk_bytes = kem_pk_bytes(&keys.kem_kp);
    if !validate_kem_pk(pk_bytes) {
        return Err(VeilError::Crypto);
    }
    let vk_bytes = dsa_vk_bytes(&keys.dsa_kp);
    if !validate_dsa_vk(vk_bytes) {
        return Err(VeilError::Crypto);
    }
    Ok(())
}

/// Check the key strength by size (ML-KEM-768 and ML-DSA-65 parameter sets);
/// always passes for the same reason.
pub fn validate_key_strength(keys: &EphemeralKeys) -> (r: Result<(), VeilError>)
    ensures
        r is Ok,
{
    let pk_bytes = kem_pk_bytes(&keys.kem_kp);
    if pk_bytes.len() != KEM_PK_SIZE {
        return Err(VeilError::Crypto);
    }
    let vk_bytes = dsa_vk_bytes(&keys.dsa_kp);
    if vk_bytes.len() != DSA_VK_SIZE {
        return Err(VeilError::Crypto);
    }
    Ok(())
}

/// Deriving from a list holding one seed is deriving from that seed.
pub proof fn lemma_multi_source_single_seed(seed: Seed)
    requires
        seed@.len() == 64,
    ensures
        spec_keys(spec_combined_seed(seq![seed])) == spec_keys(seed@),
{
    assert(seq![seed].map_values(|s: Seed| s@) =~= seq![seed@]);
    crate::l1_entropy::lemma_xor_fold_single(seed@);
}

} // verus!
