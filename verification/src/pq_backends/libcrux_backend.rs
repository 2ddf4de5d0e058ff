//! ML-KEM-768 and ML-DSA-65 through the libcrux crates.
//!
//! Keys, ciphertexts and signatures are held as fixed-size byte arrays of the
//! library's own types; each libcrux call sits behind one trusted wrapper
//! whose contract names its result as a function of the call's bytes.

use crate::VeilError;
use vstd::prelude::*;

verus! {

/// ML-KEM-768 public key size.
pub const KEM_PK_SIZE: usize = 1184;
/// ML-KEM-768 private key size.
pub const KEM_SK_SIZE: usize = 2400;
/// ML-KEM-768 ciphertext size.
pub const KEM_CT_SIZE: usize = 1088;
/// ML-KEM-768 shared secret size.
pub const KEM_SS_SIZE: usize = 32;
/// ML-KEM-768 key-generation seed size.
pub const KEM_SEED_SIZE: usize = 64;

/// ML-DSA-65 verification key size.
pub const DSA_VK_SIZE: usize = 1952;
/// ML-DSA-65 signing key size.
pub const DSA_SK_SIZE: usize = 4032;
/// ML-DSA-65 signature size.
pub const DSA_SIG_SIZE: usize = 3309;
/// ML-DSA-65 key-generation seed size.
pub const DSA_SEED_SIZE: usize = 32;

/// Longest context string ML-DSA accepts.
pub const DSA_CONTEXT_MAX: usize = 255;

/// An ML-KEM-768 shared secret.
pub type MlKemSharedSecret = [u8; 32];

/// An ML-KEM-768 public (encapsulation) key.
pub struct MlKem768PublicKey {
    pub(crate) bytes: [u8; 1184],
}

/// An ML-KEM-768 private (decapsulation) key.
pub struct MlKem768PrivateKey {
    pub(crate) bytes: [u8; 2400],
}

/// An ML-KEM-768 ciphertext.
pub struct MlKem768Ciphertext {
    pub(crate) bytes: [u8; 1088],
}

/// An ML-KEM-768 key pair.
pub struct MlKem768KeyPair {
    pub(crate) pk: MlKem768PublicKey,
    pub(crate) sk: MlKem768PrivateKey,
}

/// An ML-DSA-65 signing key.
pub struct MLDSA65SigningKey {
    pub(crate) bytes: [u8; 4032],
}

/// An ML-DSA-65 verification key.
pub struct MLDSA65VerificationKey {
    pub(crate) bytes: [u8; 1952],
}

/// An ML-DSA-65 signature.
pub struct MLDSA65Signature {
    pub(crate) bytes: [u8; 3309],
}

/// An ML-DSA-65 key pair.
pub struct MLDSA65KeyPair {
    /// The signing key.
    pub signing_key: MLDSA65SigningKey,
    /// The verification key.
    pub verification_key: MLDSA65VerificationKey,
}

impl View for MlKem768PublicKey {
    type V = Seq<u8>;

    closed spec fn view(&self) -> Seq<u8> {
        self.bytes@
    }
}

impl View for MlKem768PrivateKey {
    type V = Seq<u8>;

    closed spec fn view(&self) -> Seq<u8> {
        self.bytes@
    }
}

impl View for MlKem768Ciphertext {
    type V = Seq<u8>;

    closed spec fn view(&self) -> Seq<u8> {
        self.bytes@
    }
}

impl View for MlKem768KeyPair {
    type V = (Seq<u8>, Seq<u8>);

    /// `(public key, private key)`.
    closed spec fn view(&self) -> (Seq<u8>, Seq<u8>) {
        (self.pk@, self.sk@)
    }
}

impl View for MLDSA65SigningKey {
    type V = Seq<u8>;

    closed spec fn view(&self) -> Seq<u8> {
        self.bytes@
    }
}

impl View for MLDSA65VerificationKey {
    type V = Seq<u8>;

    closed spec fn view(&self) -> Seq<u8> {
        self.bytes@
    }
}

impl View for MLDSA65Signature {
    type V = Seq<u8>;

    closed spec fn view(&self) -> Seq<u8> {
        self.bytes@
    }
}

impl View for MLDSA65KeyPair {
    type V = (Seq<u8>, Seq<u8>);

    /// `(signing key, verification key)`.
    open spec fn view(&self) -> (Seq<u8>, Seq<u8>) {
        (self.signing_key@, self.verification_key@)
    }
}

impl MlKem768PublicKey {
    /// The key bytes.
    pub fn as_slice(&self) -> (b: &[u8; 1184])
        ensures
            b@ == self@,
    {
        &self.bytes
    }
}

impl MlKem768PrivateKey {
    /// The key bytes.
    pub fn as_slice(&self) -> (b: &[u8; 2400])
        ensures
            b@ == self@,
    {
        &self.bytes
    }
}

impl MlKem768Ciphertext {
    /// The ciphertext bytes.
    pub fn as_slice(&self) -> (b: &[u8; 1088])
        ensures
            b@ == self@,
    {
        &self.bytes
    }
}

impl MlKem768KeyPair {
    /// The public key.
    pub fn public_key(&self) -> (pk: &MlKem768PublicKey)
        ensures
            pk@ == self@.0,
    {
        &self.pk
    }

    /// The private key.
    pub fn private_key(&self) -> (sk: &MlKem768PrivateKey)
        ensures
            sk@ == self@.1,
    {
        &self.sk
    }
}

impl MLDSA65SigningKey {
    /// A signing key holding `bytes`.
    pub fn new(bytes: [u8; 4032]) -> (k: Self)
        ensures
            k@ == bytes@,
    {
        MLDSA65SigningKey { bytes }
    }

    /// The key bytes.
    pub fn as_ref(&self) -> (b: &[u8; 4032])
        ensures
            b@ == self@,
    {
        &self.bytes
    }

    /// The key bytes.
    pub fn as_slice(&self) -> (b: &[u8])
        ensures
            b@ == self@,
    {
        self.bytes.as_slice()
    }
}

impl MLDSA65VerificationKey {
    /// A verification key holding `bytes`.
    pub fn new(bytes: [u8; 1952]) -> (k: Self)
        ensures
            k@ == bytes@,
    {
        MLDSA65VerificationKey { bytes }
    }

    /// The key bytes.
    pub fn as_ref(&self) -> (b: &[u8; 1952])
        ensures
            b@ == self@,
    {
        &self.bytes
    }

    /// The key bytes.
    pub fn as_slice(&self) -> (b: &[u8])
        ensures
            b@ == self@,
    {
        self.bytes.as_slice()
    }
}

impl MLDSA65Signature {
    /// A signature holding `bytes`.
    pub fn new(bytes: [u8; 3309]) -> (s: Self)
        ensures
            s@ == bytes@,
    {
        MLDSA65Signature { bytes }
    }

    /// The signature bytes.
    pub fn as_ref(&self) -> (b: &[u8; 3309])
        ensures
            b@ == self@,
    {
        &self.bytes
    }

    /// The signature bytes.
    pub fn as_slice(&self) -> (b: &[u8])
        ensures
            b@ == self@,
    {
        self.bytes.as_slice()
    }
}

/// `libcrux_ml_dsa::SigningError`, carried opaquely.
#[verifier::external_type_specification]
#[verifier::external_body]
pub struct ExSigningError(libcrux_ml_dsa::SigningError);

/// `libcrux_ml_dsa::VerificationError`, carried opaquely.
#[verifier::external_type_specification]
#[verifier::external_body]
pub struct ExVerificationError(libcrux_ml_dsa::VerificationError);

/// The `(public key, private key)` pair that ML-KEM-768 key generation
/// (FIPS 203) derives from a 64-byte seed.
pub uninterp spec fn ml_kem_768_keypair(seed: Seq<u8>) -> (Seq<u8>, Seq<u8>);

/// The `(ciphertext, shared secret)` ML-KEM-768 encapsulation produces for a
/// public key and 32 bytes of encapsulation randomness.
pub uninterp spec fn ml_kem_768_encapsulate(pk: Seq<u8>, randomness: Seq<u8>) -> (Seq<u8>, Seq<u8>);

/// The shared secret ML-KEM-768 decapsulation recovers from a private key
/// and a ciphertext (the implicit-rejection value on a mismatch).
pub uninterp spec fn ml_kem_768_decapsulate(sk: Seq<u8>, ct: Seq<u8>) -> Seq<u8>;

/// The `(signing key, verification key)` pair ML-DSA-65 key generation
/// (FIPS 204) derives from a 32-byte seed.
pub uninterp spec fn ml_dsa_65_keypair(seed: Seq<u8>) -> (Seq<u8>, Seq<u8>);

/// The ML-DSA-65 signature over `(message, context)` with the given signing
/// randomness, or `None` where signing fails.
pub uninterp spec fn ml_dsa_65_sign(sk: Seq<u8>, message: Seq<u8>, context: Seq<u8>, randomness: Seq<u8>) -> Option<Seq<u8>>;

/// Whether ML-DSA-65 accepts `signature` over `(message, context)` under `vk`.
pub uninterp spec fn ml_dsa_65_verify(vk: Seq<u8>, message: Seq<u8>, context: Seq<u8>, signature: Seq<u8>) -> bool;

/// Every signature the signing key of `kp` produces verifies under its
/// verification key, for every message, context and signing randomness.
pub open spec fn signatures_verify(kp: (Seq<u8>, Seq<u8>)) -> bool {
    forall|m: Seq<u8>, ctx: Seq<u8>, rnd: Seq<u8>, s: Seq<u8>|
        #![trigger ml_dsa_65_sign(kp.0, m, ctx, rnd), ml_dsa_65_verify(kp.1, m, ctx, s)]
        ml_dsa_65_sign(kp.0, m, ctx, rnd) == Some(s) ==> ml_dsa_65_verify(kp.1, m, ctx, s)
}

/// Whether a byte string has the ML-KEM-768 public key size.
pub fn validate_kem_pk(pk_bytes: &[u8]) -> (ok: bool)
    ensures
        ok == (pk_bytes@.len() == KEM_PK_SIZE),
{
    pk_bytes.len() == KEM_PK_SIZE
}

/// Whether a byte string has the ML-DSA-65 verification key size.
pub fn validate_dsa_vk(vk_bytes: &[u8]) -> (ok: bool)
    ensures
        ok == (vk_bytes@.len() == DSA_VK_SIZE),
{
    vk_bytes.len() == DSA_VK_SIZE
}

/// `libcrux_ml_kem::mlkem768::generate_key_pair`: deterministic in the seed;
/// the key pair is the named result of the seed.
#[verifier::external_body]
pub fn kem_keygen(seed: [u8; 64]) -> (kp: MlKem768KeyPair)
    ensures
        kp@ == ml_kem_768_keypair(seed@),
{
    let kp = libcrux_ml_kem::mlkem768::generate_key_pair(seed);
    MlKem768KeyPair {
        pk: MlKem768PublicKey { bytes: *kp.public_key().as_slice() },
        sk: MlKem768PrivateKey { bytes: *kp.private_key().as_slice() },
    }
}

/// `libcrux_ml_dsa::ml_dsa_65::generate_key_pair`: deterministic in the seed;
/// the key pair is the named result of the seed. ML-DSA is correct (FIPS 204,
/// and the crate's documented sign-then-verify example): whatever the
/// generated signing key signs, the generated verification key accepts.
#[verifier::external_body]
pub fn dsa_keygen(seed: [u8; 32]) -> (kp: MLDSA65KeyPair)
    ensures
        kp@ == ml_dsa_65_keypair(seed@),
        signatures_verify(kp@),
{
    let kp = libcrux_ml_dsa::ml_dsa_65::generate_key_pair(seed);
    MLDSA65KeyPair {
        signing_key: MLDSA65SigningKey { bytes: *kp.signing_key.as_ref() },
        verification_key: MLDSA65VerificationKey { bytes: *kp.verification_key.as_ref() },
    }
}

/// `libcrux_ml_kem::mlkem768::encapsulate`: deterministic in the public key
/// and the randomness; `(ciphertext, shared secret)` is their named result.
#[verifier::external_body]
pub fn kem_encapsulate(pk: &MlKem768PublicKey, randomness: [u8; 32]) -> (r: (MlKem768Ciphertext, MlKemSharedSecret))
    ensures
        (r.0@, r.1@) == ml_kem_768_encapsulate(pk@, randomness@),
{
    let key = libcrux_ml_kem::mlkem768::MlKem768PublicKey::from(pk.bytes);
    let (ct, ss) = libcrux_ml_kem::mlkem768::encapsulate(&key, randomness);
    (MlKem768Ciphertext { bytes: *ct.as_slice() }, ss)
}

/// `libcrux_ml_kem::mlkem768::decapsulate`: the shared secret is the named
/// result of the private key and the ciphertext.
#[verifier::external_body]
pub fn kem_decapsulate(sk: &MlKem768PrivateKey, ct: &MlKem768Ciphertext) -> (ss: MlKemSharedSecret)
    ensures
        ss@ == ml_kem_768_decapsulate(sk@, ct@),
{
    let key = libcrux_ml_kem::mlkem768::MlKem768PrivateKey::from(sk.bytes);
    let c = libcrux_ml_kem::mlkem768::MlKem768Ciphertext::from(ct.bytes);
    libcrux_ml_kem::mlkem768::decapsulate(&key, &c)
}

/// `libcrux_ml_dsa::ml_dsa_65::sign`: `Ok` exactly when the named result is
/// a signature, which it returns; a context longer than 255 bytes is refused.
#[verifier::external_body]
fn ml_dsa_65_sign_raw(
    sk: &MLDSA65SigningKey,
    message: &[u8],
    context: &[u8],
    randomness: [u8; 32],
) -> (r: Result<MLDSA65Signature, libcrux_ml_dsa::SigningError>)
    ensures
        match r {
            Ok(s) => ml_dsa_65_sign(sk@, message@, context@, randomness@) == Some(s@),
            Err(_) => ml_dsa_65_sign(sk@, message@, context@, randomness@) is None,
        },
        context@.len() > 255 ==> r is Err,
{
    let key = libcrux_ml_dsa::ml_dsa_65::MLDSA65SigningKey::new(sk.bytes);
    match libcrux_ml_dsa::ml_dsa_65::sign(&key, message, context, randomness) {
        Ok(s) => Ok(MLDSA65Signature { bytes: *s.as_ref() }),
        Err(e) => Err(e),
    }
}

/// `libcrux_ml_dsa::ml_dsa_65::verify`: `Ok` exactly when the named verdict
/// accepts; a context longer than 255 bytes is refused.
#[verifier::external_body]
fn ml_dsa_65_verify_raw(
    vk: &MLDSA65VerificationKey,
    message: &[u8],
    context: &[u8],
    signature: &MLDSA65Signature,
) -> (r: Result<(), libcrux_ml_dsa::VerificationError>)
    ensures
        r is Ok == ml_dsa_65_verify(vk@, message@, context@, signature@),
        context@.len() > 255 ==> r is Err,
{
    let key = libcrux_ml_dsa::ml_dsa_65::MLDSA65VerificationKey::new(vk.bytes);
    let sig = libcrux_ml_dsa::ml_dsa_65::MLDSA65Signature::new(signature.bytes);
    libcrux_ml_dsa::ml_dsa_65::verify(&key, message, context, &sig)
}

/// Sign `message` under `context` with ML-DSA-65. Fails with `Crypto` exactly
/// when signing fails (always for a context over 255 bytes).
pub fn dsa_sign(
    sk: &MLDSA65SigningKey,
    message: &[u8],
    context: &[u8],
    randomness: [u8; 32],
) -> (r: Result<MLDSA65Signature, VeilError>)
    ensures
        match r {
            Ok(s) => ml_dsa_65_sign(sk@, message@, context@, randomness@) == Some(s@),
            Err(e) => e == VeilError::Crypto && ml_dsa_65_sign(sk@, message@, context@, randomness@) is None,
        },
        context@.len() > DSA_CONTEXT_MAX ==> r is Err,
{
    match ml_dsa_65_sign_raw(sk, message, context, randomness) {
        Ok(s) => Ok(s),
        Err(_) => Err(VeilError::Crypto),
    }
}

/// Verify an ML-DSA-65 signature: `Ok(())` exactly when ML-DSA-65 accepts it,
/// otherwise `Crypto` (always for a context over 255 bytes).
pub fn dsa_verify(
    vk: &MLDSA65VerificationKey,
    message: &[u8],
    context: &[u8],
    signature: &MLDSA65Signature,
) -> (r: Result<(), VeilError>)
    ensures
        r is Ok == ml_dsa_65_verify(vk@, message@, context@, signature@),
        r matches Err(e) ==> e == VeilError::Crypto,
        context@.len() > DSA_CONTEXT_MAX ==> r is Err,
{
    match ml_dsa_65_verify_raw(vk, message, context, signature) {
        Ok(()) => Ok(()),
        Err(_) => Err(VeilError::Crypto),
    }
}

/// The public key bytes of a KEM key pair.
pub fn kem_pk_bytes(kp: &MlKem768KeyPair) -> (b: &[u8; 1184])
    ensures
        b@ == kp@.0,
{
    kp.public_key().as_slice()
}

/// The private key bytes of a KEM key pair.
pub fn kem_sk_bytes(kp: &MlKem768KeyPair) -> (b: &[u8; 2400])
    ensures
        b@ == kp@.1,
{
    kp.private_key().as_slice()
}

/// The verification key bytes of a DSA key pair.
pub fn dsa_vk_bytes(kp: &MLDSA65KeyPair) -> (b: &[u8; 1952])
    ensures
        b@ == kp@.1,
{
    kp.verification_key.as_ref()
}

/// The signing key bytes of a DSA key pair.
pub fn dsa_sk_bytes(kp: &MLDSA65KeyPair) -> (b: &[u8; 4032])
    ensures
        b@ == kp@.0,
{
    kp.signing_key.as_ref()
}

/// A KEM public key holding `bytes`.
pub fn kem_pk_from_bytes(bytes: &[u8; 1184]) -> (pk: MlKem768PublicKey)
    ensures
        pk@ == bytes@,
{
    MlKem768PublicKey { bytes: *bytes }
}

/// A KEM private key holding `bytes`.
pub fn kem_sk_from_bytes(bytes: &[u8; 2400]) -> (sk: MlKem768PrivateKey)
    ensures
        sk@ == bytes@,
{
    MlKem768PrivateKey { bytes: *bytes }
}

} // verus!
