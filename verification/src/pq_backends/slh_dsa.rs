//! SLH-DSA-SHAKE-128f (FIPS 205), the stateless hash-based signature.
//!
//! Key derivation, signing and verification are the `slh-dsa` crate's; each
//! call sits behind one trusted wrapper that names its result. What the
//! library adds is verified: the layout of the secret key, the public key as
//! its last 32 bytes, and the wipe of the secret after signing.

use crate::l0_memlock::{all_bytes, zeroize_bytes};
use slh_dsa::signature::{Keypair, Signer, Verifier};
use vstd::prelude::*;

verus! {

/// Secret key length: `SK.seed ‖ SK.prf ‖ PK.seed ‖ PK.root`, 16 bytes each.
pub const SECRET_KEY_LEN: usize = 64;

/// Seed material length: `SK.seed ‖ SK.prf ‖ PK.seed`.
pub const SEED_MATERIAL_LEN: usize = 48;

/// Public key length: `PK.seed ‖ PK.root`.
pub const PUBLIC_KEY_LEN: usize = 32;

/// Signature length of SLH-DSA-SHAKE-128f.
pub const SIGNATURE_LEN: usize = 17088;

/// An encoded secret key.
pub type SecretKey = [u8; SECRET_KEY_LEN];

/// Seed material for key derivation.
pub type SeedMaterial = [u8; SEED_MATERIAL_LEN];

/// An encoded public key.
pub type PublicKey = [u8; PUBLIC_KEY_LEN];

/// An encoded signature.
pub type SignatureBytes = [u8; SIGNATURE_LEN];

/// The encoded secret key `slh_keygen_internal` derives from 48 bytes of seed
/// material (FIPS 205, Algorithm 18).
pub uninterp spec fn slh_dsa_keygen(seed: Seq<u8>) -> Seq<u8>;

/// The deterministic SLH-DSA-SHAKE-128f signature (empty context) of a
/// message under an encoded secret key.
pub uninterp spec fn slh_dsa_sign(secret: Seq<u8>, message: Seq<u8>) -> Seq<u8>;

/// Whether SLH-DSA-SHAKE-128f accepts the encoded signature over the message
/// (empty context) under the encoded public key.
pub uninterp spec fn slh_dsa_verify(message: Seq<u8>, signature: Seq<u8>, public: Seq<u8>) -> bool;

/// Whether every message's signature under an encoded secret key verifies
/// under that key's public half (its last 32 bytes).
pub open spec fn slh_signatures_verify(secret: Seq<u8>) -> bool {
    forall|m: Seq<u8>| slh_dsa_verify(m, #[trigger] slh_dsa_sign(secret, m), secret.subrange(32, 64))
}

/// `SigningKey::<Shake128f>::slh_keygen_internal(seed[..16], seed[16..32],
/// seed[32..48]).to_bytes()`: the named key, whose first 48 bytes are the
/// seed material itself (`to_bytes` writes `SK.seed ‖ SK.prf ‖ PK.seed ‖
/// PK.root`). A key so generated signs messages that its verifying key
/// accepts (FIPS 205 correctness; the crate's usage example signs and
/// verifies).
#[verifier::external_body]
fn slh_keygen_raw(seed: &[u8; 48]) -> (sk: [u8; 64])
    ensures
        sk@ == slh_dsa_keygen(seed@),
        sk@.subrange(0, 48) == seed@,
        slh_signatures_verify(sk@),
{
    let sk = slh_dsa::SigningKey::<slh_dsa::Shake128f>::slh_keygen_internal(&seed[..16], &seed[16..32], &seed[32..48]);
    let mut out = [0u8; 64];
    out.copy_from_slice(sk.to_bytes().as_slice());
    out
}

/// `SigningKey::<Shake128f>::try_from(secret)` then
/// `verifying_key().to_bytes()`: a 64-byte key always parses, and the
/// verifying key it encodes is its last 32 bytes (`PK.seed ‖ PK.root`).
#[verifier::external_body]
fn slh_public_key_raw(secret: &[u8; 64]) -> (pk: Option<[u8; 32]>)
    ensures
        pk is Some,
        pk.unwrap()@ == secret@.subrange(32, 64),
{
    match slh_dsa::SigningKey::<slh_dsa::Shake128f>::try_from(secret.as_slice()) {
        Ok(sk) => {
            let mut out = [0u8; 32];
            out.copy_from_slice(sk.verifying_key().to_bytes().as_slice());
            Some(out)
        },
        Err(_) => None,
    }
}

/// `SigningKey::<Shake128f>::try_from(secret)` then `Signer::sign`: a
/// 64-byte key always parses and signing with the empty context never fails;
/// the signature is the named result of the key and the message.
#[verifier::external_body]
fn slh_sign_raw(message: &[u8], secret: &[u8; 64]) -> (sig: Option<[u8; 17088]>)
    ensures
        sig is Some,
        sig.unwrap()@ == slh_dsa_sign(secret@, message@),
{
    match slh_dsa::SigningKey::<slh_dsa::Shake128f>::try_from(secret.as_slice()) {
        Ok(sk) => {
            let sig: slh_dsa::Signature<slh_dsa::Shake128f> = sk.sign(message);
            let mut out = [0u8; 17088];
            out.copy_from_slice(sig.to_bytes().as_slice());
            Some(out)
        },
        Err(_) => None,
    }
}

/// Parse the public key and the signature, then `Verifier::verify`: the
/// verdict is the named result of the message, signature and key.
#[verifier::external_body]
fn slh_verify_raw(message: &[u8], signature: &[u8; 17088], public: &[u8; 32]) -> (ok: bool)
    ensures
        ok == slh_dsa_verify(message@, signature@, public@),
{
    let vk = match slh_dsa::VerifyingKey::<slh_dsa::Shake128f>::try_from(public.as_slice()) {
        Ok(v) => v,
        Err(_) => return false,
    };
    let sig = match slh_dsa::Signature::<slh_dsa::Shake128f>::try_from(signature.as_slice()) {
        Ok(s) => s,
        Err(_) => return false,
    };
    vk.verify(message, &sig).is_ok()
}

/// SLH-DSA-SHAKE-128f signer.
pub struct SlhDsaSigner;

impl SlhDsaSigner {
    /// Derive the encoded secret key from 48 bytes of seed material; the
    /// first 48 bytes of the key are the seed material, and every signature
    /// it makes verifies under its public key.
    pub fn derive_secret_key(seed: &SeedMaterial) -> (sk: SecretKey)
        ensures
            sk@ == slh_dsa_keygen(seed@),
            sk@.subrange(0, 48) == seed@,
            slh_signatures_verify(sk@),
    {
        slh_keygen_raw(seed)
    }

    /// The public key of an encoded secret key: its last 32 bytes.
    pub fn public_key(secret: &SecretKey) -> (pk: Option<PublicKey>)
        ensures
            pk is Some,
        pk.unwrap()@ == secret@.subrange(32, 64),
    {
        slh_public_key_raw(secret)
    }

    /// Sign `message`, then wipe the secret key.
    pub fn sign(message: &[u8], secret: &mut SecretKey) -> (sig: Option<SignatureBytes>)
        ensures
            sig is Some,
            sig.unwrap()@ == slh_dsa_sign(old(secret)@, message@),
            all_bytes(final(secret)@, 0),
    {
        let sig = slh_sign_raw(message, secret);
        zeroize_bytes(secret);
        sig
    }

    /// Whether `signature` is a valid signature of `message` under `public`.
    pub fn verify(message: &[u8], signature: &SignatureBytes, public: &PublicKey) -> (ok: bool)
        ensures
            ok == slh_dsa_verify(message@, signature@, public@),
    {
        slh_verify_raw(message, signature, public)
    }
}

} // verus!
