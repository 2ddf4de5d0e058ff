//! The SHAKE256 boundary: the `sha3` crate's extendable-output sponge.
//!
//! A sponge is modelled by the byte stream it has absorbed; squeezing `n`
//! bytes yields `shake256(absorbed, n)`. Every digest in the library is stated
//! over these two names.

use sha3::digest::{ExtendableOutput, Update, XofReader};
use vstd::prelude::*;

verus! {

/// A SHAKE256 sponge (`sha3::Shake256`) in its absorbing phase, held in a
/// private field. Its contents are opaque: the library knows a sponge only
/// by the bytes it has absorbed (`absorbed`), and touches it only through
/// `xof_new`, `xof_update` and `xof_squeeze`.
#[verifier::external_body]
pub struct Sponge {
    inner: sha3::Shake256,
}

/// The bytes a SHAKE256 sponge has absorbed, in order.
pub uninterp spec fn absorbed(h: Sponge) -> Seq<u8>;

/// The first `len` bytes SHAKE256 squeezes out after absorbing `input`.
pub uninterp spec fn shake256(input: Seq<u8>, len: nat) -> Seq<u8>;

/// `Shake256::default()`: a sponge that has absorbed nothing.
#[verifier::external_body]
pub(crate) fn xof_new() -> (h: Sponge)
    ensures
        absorbed(h) == Seq::<u8>::empty(),
{
    Sponge { inner: sha3::Shake256::default() }
}

/// `Update::update`: the sponge absorbs `data` after what it already holds.
#[verifier::external_body]
pub(crate) fn xof_update(h: &mut Sponge, data: &[u8])
    ensures
        absorbed(*final(h)) == absorbed(*old(h)) + data@,
{
    h.inner.update(data);
}

/// `finalize_xof` then `XofReader::read` into a `len`-byte buffer: the first
/// `len` bytes of SHAKE256 over everything absorbed.
#[verifier::external_body]
pub(crate) fn xof_squeeze(h: Sponge, len: usize) -> (out: Vec<u8>)
    ensures
        out@ == shake256(absorbed(h), len as nat),
        out@.len() == len,
{
    let mut out = vec![0u8; len];
    h.inner.finalize_xof().read(&mut out);
    out
}

/// SHAKE256 over `a ‖ b`, `len` bytes.
pub fn shake2(a: &[u8], b: &[u8], len: usize) -> (out: Vec<u8>)
    ensures
        out@ == shake256(a@ + b@, len as nat),
        out@.len() == len,
{
    let mut h = xof_new();
    xof_update(&mut h, a);
    xof_update(&mut h, b);
    assert(absorbed(h) =~= a@ + b@);
    xof_squeeze(h, len)
}

/// SHAKE256 over `a ‖ b ‖ c`, `len` bytes.
pub fn shake3(a: &[u8], b: &[u8], c: &[u8], len: usize) -> (out: Vec<u8>)
    ensures
        out@ == shake256(a@ + b@ + c@, len as nat),
        out@.len() == len,
{
    let mut h = xof_new();
    xof_update(&mut h, a);
    xof_update(&mut h, b);
    xof_update(&mut h, c);
    assert(absorbed(h) =~= a@ + b@ + c@);
    xof_squeeze(h, len)
}

} // verus!
