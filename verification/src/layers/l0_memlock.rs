//! L0 — self-zeroising buffers, wiping helpers and canaries.
//!
//! [`Locked`] is a heap-boxed byte buffer that is wiped (zeroise → poison →
//! zeroise) when dropped. Pinning its pages with `mlock(2)` needs raw system
//! calls, which this library does not make: `is_locked` reports `false`, and
//! the buffer still wipes itself on drop.

use crate::bytes::{le_bytes, u64_le};
use vstd::prelude::*;
use zeroize::Zeroize;

verus! {

/// Poison pattern written between two zeroising passes.
pub const POISON_PATTERN: u8 = 0xDE;

/// Canary value for stack-based buffer overflow detection.
pub const CANARY_VALUE: u64 = 0xDEADBEEFCAFEBABE;

/// Canary value for buffer-overflow sentinels.
pub const CANARY: u64 = 0xDEADBEEFCAFEBABE;

/// Every byte is `b`.
pub open spec fn all_bytes(s: Seq<u8>, b: u8) -> bool {
    forall|i: int| 0 <= i < s.len() ==> s[i] == b
}

/// Whether every byte is `b`.
pub fn is_all_bytes(bytes: &[u8], b: u8) -> (r: bool)
    ensures
        r == all_bytes(bytes@, b),
{
    let n = bytes.len();
    let mut i: usize = 0;
    while i < n
        invariant
            i <= n,
            n == bytes@.len(),
            forall|j: int| 0 <= j < i ==> bytes@[j] == b,
        decreases n - i,
    {
        if bytes[i] != b {
            return false;
        }
        i = i + 1;
    }
    true
}

/// Overwrite every byte with `value`.
fn fill_bytes(bytes: &mut [u8], value: u8)
    ensures
        final(bytes)@.len() == old(bytes)@.len(),
        all_bytes(final(bytes)@, value),
{
    let n = bytes.len();
    let mut i: usize = 0;
    while i < n
        invariant
            i <= n,
            n == bytes@.len(),
            forall|j: int| 0 <= j < i ==> bytes@[j] == value,
        decreases n - i,
    {
        bytes[i] = value;
        i = i + 1;
    }
}

/// `zeroize::Zeroize::zeroize` on a byte slice: volatile writes of zero to
/// every byte (which the compiler may not elide), then a compiler fence. It
/// never fails for a slice, whose length always fits in `isize`.
#[verifier::external_body]
pub(crate) fn secure_zero(bytes: &mut [u8])
    ensures
        final(bytes)@.len() == old(bytes)@.len(),
        all_bytes(final(bytes)@, 0),
    opens_invariants none
    no_unwind
{
    bytes.zeroize();
}

/// Wipe bytes: every byte becomes zero.
pub fn zeroize_bytes(bytes: &mut [u8])
    ensures
        final(bytes)@.len() == old(bytes)@.len(),
        all_bytes(final(bytes)@, 0),
{
    secure_zero(bytes);
}

/// Wipe a byte vector in place: same length, every byte zero.
pub fn zeroize_vec(v: &mut Vec<u8>)
    ensures
        final(v)@.len() == old(v)@.len(),
        all_bytes(final(v)@, 0),
{
    secure_zero(v.as_mut_slice());
}

/// Wipe a `u64` scalar.
pub fn zeroize_u64(word: &mut u64)
    ensures
        *final(word) == 0,
{
    *word = 0;
}

/// Fill bytes with the poison pattern `0xDE`.
pub fn poison_bytes(bytes: &mut [u8])
    ensures
        final(bytes)@.len() == old(bytes)@.len(),
        all_bytes(final(bytes)@, POISON_PATTERN),
{
    fill_bytes(bytes, POISON_PATTERN);
}

/// Zeroise, poison, zeroise: the buffer ends all zero.
pub fn zeroize_and_poison(bytes: &mut [u8])
    ensures
        final(bytes)@.len() == old(bytes)@.len(),
        all_bytes(final(bytes)@, 0),
{
    zeroize_bytes(bytes);
    poison_bytes(bytes);
    zeroize_bytes(bytes);
}

/// The bytes a planted stack canary holds.
pub open spec fn canary_bytes() -> Seq<u8> {
    le_bytes(CANARY_VALUE as nat, 8)
}

/// Plant a stack canary: write the canary value's bytes into the buffer.
pub fn plant_stack_canary(canary: &mut [u8; 8])
    ensures
        final(canary)@ == canary_bytes(),
{
    let val = u64_le(CANARY_VALUE);
    let mut i: usize = 0;
    while i < 8
        invariant
            i <= 8,
            val@ == canary_bytes(),
            val@.len() == 8,
            canary@.len() == 8,
            forall|j: int| 0 <= j < i ==> canary@[j] == val@[j],
        decreases 8 - i,
    {
        canary[i] = val[i];
        i = i + 1;
    }
    assert(canary@ =~= canary_bytes());
}

/// True exactly when the buffer holds the planted canary.
pub fn validate_stack_canary(canary: &[u8; 8]) -> (ok: bool)
    ensures
        ok == (canary@ == canary_bytes()),
{
    let val = u64_le(CANARY_VALUE);
    let mut i: usize = 0;
    while i < 8
        invariant
            i <= 8,
            val@ == canary_bytes(),
            val@.len() == 8,
            canary@.len() == 8,
            forall|j: int| 0 <= j < i ==> canary@[j] == val@[j],
        decreases 8 - i,
    {
        if canary[i] != val[i] {
            return false;
        }
        i = i + 1;
    }
    assert(canary@ =~= canary_bytes());
    true
}

/// Wipe a stack canary buffer.
pub fn wipe_stack_canary(canary: &mut [u8; 8])
    ensures
        all_bytes(final(canary)@, 0),
        final(canary)@.len() == 8,
{
    let mut i: usize = 0;
    while i < 8
        invariant
            i <= 8,
            canary@.len() == 8,
            forall|j: int| 0 <= j < i ==> canary@[j] == 0,
        decreases 8 - i,
    {
        canary[i] = 0;
        i = i + 1;
    }
}

/// True exactly when the sentinel value is intact.
pub fn check_canary(canary: u64) -> (ok: bool)
    ensures
        ok == (canary == CANARY),
{
    canary == CANARY
}

/// A heap-allocated, self-zeroising byte buffer of `N` bytes.
pub struct Locked<const N: usize> {
    buf: Box<[u8; N]>,
    locked: bool,
}

impl<const N: usize> Locked<N> {
    /// The bytes the buffer holds.
    pub closed spec fn spec_bytes(&self) -> Seq<u8> {
        self.buf@
    }

    /// Allocate a zeroed buffer. Its pages are not pinned.
    pub fn new() -> (l: Self)
        ensures
            l.spec_bytes().len() == N,
            all_bytes(l.spec_bytes(), 0),
            !l.spec_locked(),
    {
        Locked { buf: Box::new([0u8; N]), locked: false }
    }

    /// Whether the pages are pinned in RAM.
    pub closed spec fn spec_locked(&self) -> bool {
        self.locked
    }

    /// Whether the pages are pinned in RAM.
    pub fn is_locked(&self) -> (b: bool)
        ensures
            b == self.spec_locked(),
    {
        self.locked
    }

    /// Immutable view of the bytes.
    pub fn as_bytes(&self) -> (b: &[u8; N])
        ensures
            b@ == self.spec_bytes(),
    {
        &self.buf
    }

    /// Mutable view, for filling the buffer in place.
    pub fn as_mut_bytes(&mut self) -> (r: &mut [u8; N])
        ensures
            r@ == old(self).spec_bytes(),
            final(self).spec_bytes() == final(r)@,
            final(self).spec_locked() == old(self).spec_locked(),
    {
        &mut self.buf
    }

    /// Copy `src` into the buffer when it is exactly `N` bytes long; otherwise
    /// copy nothing and return false.
    pub fn fill_from(&mut self, src: &[u8]) -> (ok: bool)
        ensures
            ok == (src@.len() == N),
            ok ==> final(self).spec_bytes() == src@,
            !ok ==> final(self).spec_bytes() == old(self).spec_bytes(),
            final(self).spec_locked() == old(self).spec_locked(),
    {
        if src.len() != N {
            return false;
        }
        let mut i: usize = 0;
        while i < N
            invariant
                i <= N,
                src@.len() == N,
                self.buf@.len() == N,
                self.locked == old(self).locked,
                forall|j: int| 0 <= j < i ==> self.buf@[j] == src@[j],
            decreases N - i,
        {
            self.buf[i] = src[i];
            i = i + 1;
        }
        assert(self.buf@ =~= src@);
        true
    }
}

impl<const N: usize> Default for Locked<N> {
    /// A zeroed buffer.
    fn default() -> (l: Self)
        ensures
            l.spec_bytes().len() == N,
            all_bytes(l.spec_bytes(), 0),
            !l.spec_locked(),
    {
        Self::new()
    }
}

impl<const N: usize> Drop for Locked<N> {
    /// Zeroise, poison, zeroise the bytes; both zeroising passes are
    /// volatile writes the compiler may not elide.
    fn drop(&mut self)
        opens_invariants none
        no_unwind
    {
        {
            let arr: &mut [u8; N] = &mut self.buf;
            secure_zero(arr);
        }
        let mut i: usize = 0;
        while i < N
            invariant
                i <= N,
            decreases N - i,
        {
            self.buf[i] = POISON_PATTERN;
            i = i + 1;
        }
        let arr: &mut [u8; N] = &mut self.buf;
        secure_zero(arr);
    }
}

} // verus!
