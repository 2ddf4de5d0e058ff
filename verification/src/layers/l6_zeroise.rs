//! L6 — zeroisation of per-iteration secrets.
//!
//! Secrets are wiped by their owners' `Drop`: `EphemeralKeys` wipes both
//! secret keys, `Seed` wipes the seed, and [`Zeroizing`] wipes any buffer it
//! holds. [`scrub`] consumes the keys so their wipe runs at a chosen point.

use crate::l0_memlock::{all_bytes, is_all_bytes, poison_bytes, secure_zero, zeroize_bytes};
use crate::l2_keygen::EphemeralKeys;
use crate::VeilError;
use vstd::prelude::*;

verus! {

/// A byte array that is wiped when it drops.
pub struct Zeroizing<const N: usize>(pub [u8; N]);

impl<const N: usize> View for Zeroizing<N> {
    type V = Seq<u8>;

    open spec fn view(&self) -> Seq<u8> {
        self.0@
    }
}

impl<const N: usize> Drop for Zeroizing<N> {
    /// Wipe the bytes.
    fn drop(&mut self)
        opens_invariants none
        no_unwind
    {
        secure_zero(&mut self.0);
    }
}

impl<const N: usize> Zeroizing<N> {
    /// Take ownership of `bytes`.
    pub fn new(bytes: [u8; N]) -> (z: Self)
        ensures
            z@ == bytes@,
    {
        Zeroizing(bytes)
    }

    /// The bytes.
    pub fn as_bytes(&self) -> (b: &[u8; N])
        ensures
            b@ == self@,
    {
        &self.0
    }
}

/// Consume the keys; their secret keys are wiped as they drop here.
pub fn scrub(keys: EphemeralKeys) {
    let _wiped = keys;
}

/// Refuse a buffer that is not all zero.
pub fn validate_zeroization(buffer: &[u8]) -> (r: Result<(), VeilError>)
    ensures
        r is Ok == all_bytes(buffer@, 0),
        r matches Err(e) ==> e == VeilError::Crypto,
{
    if !is_all_bytes(buffer, 0) {
        return Err(VeilError::Crypto);
    }
    Ok(())
}

/// Refuse a buffer that is not all zero (the strength check asks the same).
pub fn validate_zeroization_strength(buffer: &[u8]) -> (r: Result<(), VeilError>)
    ensures
        r is Ok == all_bytes(buffer@, 0),
        r matches Err(e) ==> e == VeilError::Crypto,
{
    if !is_all_bytes(buffer, 0) {
        return Err(VeilError::Crypto);
    }
    Ok(())
}

/// Zeroise, poison, zeroise: the buffer ends all zero.
pub fn zeroize_multi_pass(buffer: &mut [u8])
    ensures
        final(buffer)@.len() == old(buffer)@.len(),
        all_bytes(final(buffer)@, 0),
{
    zeroize_bytes(buffer);
    poison_bytes(buffer);
    zeroize_bytes(buffer);
}

} // verus!
