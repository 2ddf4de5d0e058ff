//! Masked SHAKE256 — defence-in-depth masking layer.
//!
//! Before each secret absorb the input is XORed with the hasher's 32-byte
//! mask, cycled over the data, so the sponge sees the masked bytes. The output is therefore not standard SHAKE256
//! of the data; `update_public` absorbs unmasked. The mask is wiped at
//! finalisation and on drop.

use crate::bytes::{copy_into, to_array_32};
use crate::l0_memlock::{secure_zero, zeroize_vec};
use crate::osrand::os_random;
use crate::xof::{absorbed, shake256, xof_new, xof_squeeze, xof_update, Sponge};
use crate::VeilError;
use vstd::prelude::*;

verus! {

/// The mask a hasher falls back to when no random mask is available.
pub const DEFAULT_MASK: [u8; 32] = [0xA5, 0xA5, 0xA5, 0xA5, 0xA5, 0xA5, 0xA5, 0xA5, 0xA5, 0xA5, 0xA5, 0xA5, 0xA5, 0xA5, 0xA5, 0xA5, 0xA5, 0xA5, 0xA5, 0xA5, 0xA5, 0xA5, 0xA5, 0xA5, 0xA5, 0xA5, 0xA5, 0xA5, 0xA5, 0xA5, 0xA5, 0xA5];

/// The bytes `ct_update` feeds the sponge for `data` under `mask`: each
/// byte XORed with the mask byte at its position modulo 32.
pub open spec fn spec_masked(data: Seq<u8>, mask: Seq<u8>) -> Seq<u8> {
    Seq::new(data.len(), |i: int| data[i] ^ mask[i % 32])
}

/// A SHAKE256 hasher that masks secret inputs before absorbing them.
pub struct CtShake256 {
    inner: Sponge,
    mask: [u8; 32],
}

impl CtShake256 {
    /// What the inner sponge has absorbed.
    pub closed spec fn spec_absorbed(&self) -> Seq<u8> {
        absorbed(self.inner)
    }

    /// The current mask.
    pub closed spec fn spec_mask(&self) -> Seq<u8> {
        self.mask@
    }

    /// A hasher with a fresh random mask from the OS random source.
    pub fn new() -> (r: Result<Self, VeilError>)
        ensures
            r matches Ok(h) ==> h.spec_absorbed() == Seq::<u8>::empty() && h.spec_mask().len() == 32,
            r matches Err(e) ==> e == VeilError::Entropy,
    {
        match os_random(32) {
            Some(m) => Ok(Self::with_mask(to_array_32(&m))),
            None => Err(VeilError::Entropy),
        }
    }

    /// A hasher with a caller-supplied mask.
    pub fn with_mask(mask: [u8; 32]) -> (h: Self)
        ensures
            h.spec_absorbed() == Seq::<u8>::empty(),
            h.spec_mask() == mask@,
    {
        CtShake256 { inner: xof_new(), mask }
    }

    /// Absorb `data` XORed with the mask, cycled: byte `i` of the data is
    /// XORed with mask byte `i % 32`.
    pub fn ct_update(&mut self, data: &[u8])
        ensures
            final(self).spec_absorbed() == old(self).spec_absorbed() + spec_masked(data@, old(self).spec_mask()),
            final(self).spec_mask() == old(self).spec_mask(),
    {
        let n = data.len();
        let mut masked: Vec<u8> = Vec::new();
        let mut i: usize = 0;
        while i < n
            invariant
                i <= n,
                n == data@.len(),
                self.mask@.len() == 32,
                masked@.len() == i,
                forall|j: int| 0 <= j < i ==> masked@[j] == data@[j] ^ self.mask@[j % 32],
            decreases n - i,
        {
            masked.push(data[i] ^ self.mask[i % 32]);
            i = i + 1;
        }
        assert(masked@ =~= spec_masked(data@, self.mask@));
        xof_update(&mut self.inner, masked.as_slice());
        zeroize_vec(&mut masked);
    }

    /// Absorb public data without masking.
    pub fn update_public(&mut self, data: &[u8])
        ensures
            final(self).spec_absorbed() == old(self).spec_absorbed() + data@,
            final(self).spec_mask() == old(self).spec_mask(),
    {
        xof_update(&mut self.inner, data);
    }

    /// Squeeze `out.len()` bytes from everything absorbed, reset the sponge
    /// and wipe the mask.
    pub fn ct_finalize(&mut self, out: &mut [u8])
        ensures
            final(out)@ == shake256(old(self).spec_absorbed(), old(out)@.len()),
            final(out)@.len() == old(out)@.len(),
            final(self).spec_absorbed() == Seq::<u8>::empty(),
            final(self).spec_mask() == Seq::new(32, |i: int| 0u8),
    {
        let mut inner = xof_new();
        core::mem::swap(&mut inner, &mut self.inner);
        let bytes = xof_squeeze(inner, out.len());
        copy_into(out, &bytes);
        let mut i: usize = 0;
        while i < 32
            invariant
                i <= 32,
                self.mask@.len() == 32,
                absorbed(self.inner) == Seq::<u8>::empty(),
                forall|j: int| 0 <= j < i ==> self.mask@[j] == 0,
            decreases 32 - i,
        {
            self.mask[i] = 0;
            i = i + 1;
        }
        assert(self.mask@ =~= Seq::new(32, |i: int| 0u8));
    }

    /// Finalise into a fixed-size array.
    pub fn ct_finalize_array<const N: usize>(&mut self) -> (out: [u8; N])
        ensures
            out@ == shake256(old(self).spec_absorbed(), N as nat),
            final(self).spec_absorbed() == Seq::<u8>::empty(),
            final(self).spec_mask() == Seq::new(32, |i: int| 0u8),
    {
        let mut out = [0u8; N];
        self.ct_finalize(&mut out);
        out
    }
}

impl Default for CtShake256 {
    /// A hasher with the fixed non-zero mask `0xA5…`.
    fn default() -> (h: Self)
        ensures
            h.spec_absorbed() == Seq::<u8>::empty(),
            h.spec_mask() == DEFAULT_MASK@,
    {
        Self::with_mask(DEFAULT_MASK)
    }
}

impl Drop for CtShake256 {
    /// Wipe the mask.
    fn drop(&mut self)
        opens_invariants none
        no_unwind
    {
        secure_zero(&mut self.mask);
    }
}

/// One-shot masked SHAKE256 of `data` into `out`, under a fresh random mask
/// (or the fixed fallback mask when the OS source fails).
pub fn ct_shake256(data: &[u8], out: &mut [u8])
    ensures
        exists|m: Seq<u8>| m.len() == 32 && final(out)@ == #[trigger] shake256(spec_masked(data@, m), old(out)@.len()),
        final(out)@.len() == old(out)@.len(),
{
    let mut hasher = match CtShake256::new() {
        Ok(h) => h,
        Err(_) => CtShake256::with_mask(DEFAULT_MASK),
    };
    let ghost m = hasher.spec_mask();
    hasher.ct_update(data);
    assert(hasher.spec_absorbed() =~= spec_masked(data@, m));
    hasher.ct_finalize(out);
}

} // verus!
