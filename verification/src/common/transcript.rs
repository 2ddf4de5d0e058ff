//! Fiat-Shamir transcript — a SHAKE256-backed public-coin random oracle.
//!
//! A prover and a verifier each build an identical transcript by absorbing the
//! same public values in the same order; the challenge derived from it is then
//! the same on both sides. Every label and data blob is prefixed with its
//! 8-byte little-endian length, so the byte stream fed to the sponge is an
//! unambiguous (injective) encoding of the structured input. Each operation
//! replaces a running 64-byte state, so the transcript is bound to its whole
//! history.

use crate::bytes::{copy_into, le_bytes, lemma_le_bytes_len, lemma_le_roundtrip, lemma_pow256_8, to_array_64, u64_le};
use crate::common::domain;
use crate::xof::{absorbed, shake256, xof_new, xof_squeeze, xof_update, Sponge};
use vstd::prelude::*;

verus! {

/// A length-framed byte string: `len (8 bytes LE) ‖ bytes`.
pub open spec fn framed(b: Seq<u8>) -> Seq<u8> {
    le_bytes(b.len(), 8) + b
}

/// The state a transcript starts from under `protocol_label`.
pub open spec fn spec_transcript_new(label: Seq<u8>) -> Seq<u8> {
    shake256(domain::FS_PROTOCOL@ + framed(label), 64)
}

/// The byte stream an `absorb(label, data)` feeds the sponge from `state`.
pub open spec fn absorb_input(state: Seq<u8>, label: Seq<u8>, data: Seq<u8>) -> Seq<u8> {
    domain::FS_ABSORB@ + state + framed(label) + framed(data)
}

/// The state after `absorb(label, data)`.
pub open spec fn spec_absorb(state: Seq<u8>, label: Seq<u8>, data: Seq<u8>) -> Seq<u8> {
    shake256(absorb_input(state, label, data), 64)
}

/// The `n` challenge bytes squeezed under `label` from `state`.
pub open spec fn spec_challenge_bytes(state: Seq<u8>, label: Seq<u8>, n: nat) -> Seq<u8> {
    shake256(domain::FS_SQUEEZE@ + state + framed(label) + le_bytes(n, 8), n)
}

/// The state after emitting `challenge` under `label`.
pub open spec fn spec_post_challenge(state: Seq<u8>, label: Seq<u8>, challenge: Seq<u8>) -> Seq<u8> {
    shake256(domain::FS_POST_CHALLENGE@ + state + framed(label) + framed(challenge), 64)
}

/// A running, history-bound Fiat-Shamir transcript.
#[derive(Clone)]
pub struct Transcript {
    state: [u8; 64],
}

impl View for Transcript {
    type V = Seq<u8>;

    closed spec fn view(&self) -> Seq<u8> {
        self.state@
    }
}

/// Absorb a length-framed byte string into the sponge.
fn absorb_framed(xof: &mut Sponge, bytes: &[u8])
    ensures
        absorbed(*final(xof)) == absorbed(*old(xof)) + framed(bytes@),
{
    let len = u64_le(bytes.len() as u64);
    xof_update(xof, len.as_slice());
    xof_update(xof, bytes);
    assert(absorbed(*xof) =~= absorbed(*old(xof)) + framed(bytes@));
}

impl Transcript {
    /// Start a transcript bound to a protocol label.
    pub fn new(protocol_label: &[u8]) -> (t: Self)
        ensures
            t@ == spec_transcript_new(protocol_label@),
    {
        let mut xof = xof_new();
        xof_update(&mut xof, &domain::FS_PROTOCOL);
        absorb_framed(&mut xof, protocol_label);
        assert(absorbed(xof) =~= domain::FS_PROTOCOL@ + framed(protocol_label@));
        let out = xof_squeeze(xof, 64);
        Transcript { state: to_array_64(&out) }
    }

    /// Absorb a labelled public value into the transcript.
    pub fn absorb(&mut self, label: &[u8], data: &[u8])
        ensures
            final(self)@ == spec_absorb(old(self)@, label@, data@),
    {
        let mut xof = xof_new();
        xof_update(&mut xof, &domain::FS_ABSORB);
        xof_update(&mut xof, self.state.as_slice());
        absorb_framed(&mut xof, label);
        absorb_framed(&mut xof, data);
        assert(absorbed(xof) =~= absorb_input(old(self)@, label@, data@));
        let out = xof_squeeze(xof, 64);
        self.state = to_array_64(&out);
    }

    /// Derive `out.len()` challenge bytes bound to everything absorbed so far,
    /// then fold the challenge back into the state.
    pub fn challenge(&mut self, label: &[u8], out: &mut [u8])
        ensures
            final(out)@ == spec_challenge_bytes(old(self)@, label@, old(out)@.len()),
            final(out)@.len() == old(out)@.len(),
            final(self)@ == spec_post_challenge(old(self)@, label@, final(out)@),
    {
        let n = out.len();
        let mut xof = xof_new();
        xof_update(&mut xof, &domain::FS_SQUEEZE);
        xof_update(&mut xof, self.state.as_slice());
        absorb_framed(&mut xof, label);
        let len = u64_le(n as u64);
        xof_update(&mut xof, len.as_slice());
        assert(absorbed(xof) =~= domain::FS_SQUEEZE@ + old(self)@ + framed(label@) + le_bytes(n as nat, 8));
        let c = xof_squeeze(xof, n);
        copy_into(out, &c);

        let mut xof2 = xof_new();
        xof_update(&mut xof2, &domain::FS_POST_CHALLENGE);
        xof_update(&mut xof2, self.state.as_slice());
        absorb_framed(&mut xof2, label);
        absorb_framed(&mut xof2, out);
        assert(absorbed(xof2) =~= domain::FS_POST_CHALLENGE@ + old(self)@ + framed(label@) + framed(c@));
        let next = xof_squeeze(xof2, 64);
        self.state = to_array_64(&next);
    }

    /// Derive a fixed-size challenge array.
    pub fn challenge_array<const N: usize>(&mut self, label: &[u8]) -> (out: [u8; N])
        ensures
            out@ == spec_challenge_bytes(old(self)@, label@, N as nat),
            final(self)@ == spec_post_challenge(old(self)@, label@, out@),
    {
        let mut out = [0u8; N];
        self.challenge(label, &mut out);
        out
    }
}

/// The byte stream a challenge of `n` bytes under `label` squeezes from
/// `state`.
pub open spec fn challenge_input(state: Seq<u8>, label: Seq<u8>, n: nat) -> Seq<u8> {
    domain::FS_SQUEEZE@ + state + framed(label) + le_bytes(n, 8)
}

/// A framed string followed by an 8-byte length determines both.
proof fn lemma_framed_then_len_injective(l1: Seq<u8>, n1: nat, l2: Seq<u8>, n2: nat)
    requires
        l1.len() < 0x1_0000_0000_0000_0000,
        l2.len() < 0x1_0000_0000_0000_0000,
        n1 < 0x1_0000_0000_0000_0000,
        n2 < 0x1_0000_0000_0000_0000,
        framed(l1) + le_bytes(n1, 8) == framed(l2) + le_bytes(n2, 8),
    ensures
        l1 == l2,
        n1 == n2,
{
    let s1 = framed(l1) + le_bytes(n1, 8);
    let s2 = framed(l2) + le_bytes(n2, 8);
    lemma_le_bytes_len(l1.len(), 8);
    lemma_le_bytes_len(l2.len(), 8);
    lemma_le_bytes_len(n1, 8);
    lemma_le_bytes_len(n2, 8);
    lemma_pow256_8();
    assert(s1.subrange(0, 8) =~= le_bytes(l1.len(), 8));
    assert(s2.subrange(0, 8) =~= le_bytes(l2.len(), 8));
    lemma_le_roundtrip(l1.len(), 8);
    lemma_le_roundtrip(l2.len(), 8);
    assert(l1.len() == l2.len());
    assert(s1.subrange(8, 8 + l1.len() as int) =~= l1);
    assert(s2.subrange(8, 8 + l2.len() as int) =~= l2);
    assert(s1.subrange(8 + l1.len() as int, s1.len() as int) =~= le_bytes(n1, 8));
    assert(s2.subrange(8 + l2.len() as int, s2.len() as int) =~= le_bytes(n2, 8));
    lemma_le_roundtrip(n1, 8);
    lemma_le_roundtrip(n2, 8);
}

/// A challenge is bound to the state, the label and the output length: it
/// is SHAKE256 of a byte stream from which all three can be read back, so
/// two challenges share a squeeze input only when they share all three.
pub proof fn lemma_challenge_binds_state_label_length(
    s1: Seq<u8>, l1: Seq<u8>, n1: nat,
    s2: Seq<u8>, l2: Seq<u8>, n2: nat,
)
    requires
        s1.len() == 64,
        s2.len() == 64,
        l1.len() < 0x1_0000_0000_0000_0000,
        l2.len() < 0x1_0000_0000_0000_0000,
        n1 < 0x1_0000_0000_0000_0000,
        n2 < 0x1_0000_0000_0000_0000,
    ensures
        spec_challenge_bytes(s1, l1, n1) == shake256(challenge_input(s1, l1, n1), n1),
        challenge_input(s1, l1, n1) == challenge_input(s2, l2, n2) ==> s1 == s2 && l1 == l2 && n1 == n2,
{
    let x1 = challenge_input(s1, l1, n1);
    let x2 = challenge_input(s2, l2, n2);
    if x1 == x2 {
        let k = domain::FS_SQUEEZE@.len() as int;
        assert(x1.subrange(k, k + 64) =~= s1);
        assert(x2.subrange(k, k + 64) =~= s2);
        assert(x1.subrange(k + 64, x1.len() as int) =~= framed(l1) + le_bytes(n1, 8));
        assert(x2.subrange(k + 64, x2.len() as int) =~= framed(l2) + le_bytes(n2, 8));
        lemma_framed_then_len_injective(l1, n1, l2, n2);
    }
}

/// From one state and for one length, challenges under different labels are
/// squeezed from different byte streams.
pub proof fn lemma_distinct_labels_distinct_squeeze(state: Seq<u8>, l1: Seq<u8>, l2: Seq<u8>, n: nat)
    requires
        state.len() == 64,
        l1 != l2,
        l1.len() < 0x1_0000_0000_0000_0000,
        l2.len() < 0x1_0000_0000_0000_0000,
        n < 0x1_0000_0000_0000_0000,
    ensures
        exists|x1: Seq<u8>, x2: Seq<u8>|
            x1 != x2
            && spec_challenge_bytes(state, l1, n) == #[trigger] shake256(x1, n)
            && spec_challenge_bytes(state, l2, n) == #[trigger] shake256(x2, n),
{
    lemma_challenge_binds_state_label_length(state, l1, n, state, l2, n);
    lemma_challenge_binds_state_label_length(state, l2, n, state, l1, n);
    let x1 = challenge_input(state, l1, n);
    let x2 = challenge_input(state, l2, n);
    assert(x1 != x2);
    assert(spec_challenge_bytes(state, l1, n) == shake256(x1, n));
    assert(spec_challenge_bytes(state, l2, n) == shake256(x2, n));
}

/// The byte stream a transcript's folding of a challenge back into its
/// state absorbs.
pub open spec fn post_challenge_input(state: Seq<u8>, label: Seq<u8>, challenge: Seq<u8>) -> Seq<u8> {
    domain::FS_POST_CHALLENGE@ + state + framed(label) + framed(challenge)
}

/// The state after a challenge is bound to the previous state, the label
/// and the challenge bytes: it is SHAKE256 of a byte stream from which all
/// three can be read back.
pub proof fn lemma_post_challenge_binds(
    s1: Seq<u8>, l1: Seq<u8>, c1: Seq<u8>,
    s2: Seq<u8>, l2: Seq<u8>, c2: Seq<u8>,
)
    requires
        s1.len() == 64,
        s2.len() == 64,
        l1.len() < 0x1_0000_0000_0000_0000,
        l2.len() < 0x1_0000_0000_0000_0000,
    ensures
        spec_post_challenge(s1, l1, c1) == shake256(post_challenge_input(s1, l1, c1), 64),
        post_challenge_input(s1, l1, c1) == post_challenge_input(s2, l2, c2) ==> s1 == s2 && l1 == l2 && c1 == c2,
{
    let x1 = post_challenge_input(s1, l1, c1);
    let x2 = post_challenge_input(s2, l2, c2);
    if x1 == x2 {
        let k = domain::FS_POST_CHALLENGE@.len() as int;
        assert(x1.subrange(k, k + 64) =~= s1);
        assert(x2.subrange(k, k + 64) =~= s2);
        assert(x1.subrange(k + 64, x1.len() as int) =~= framed(l1) + framed(c1));
        assert(x2.subrange(k + 64, x2.len() as int) =~= framed(l2) + framed(c2));
        lemma_framed_pair_injective(l1, c1, l2, c2);
    }
}

/// A new transcript's state is bound to its protocol label: it is SHAKE256
/// of a byte stream from which the label can be read back.
pub proof fn lemma_new_binds_label(l1: Seq<u8>, l2: Seq<u8>)
    requires
        l1.len() < 0x1_0000_0000_0000_0000,
        l2.len() < 0x1_0000_0000_0000_0000,
    ensures
        spec_transcript_new(l1) == shake256(domain::FS_PROTOCOL@ + framed(l1), 64),
        domain::FS_PROTOCOL@ + framed(l1) == domain::FS_PROTOCOL@ + framed(l2) ==> l1 == l2,
{
    let x1 = domain::FS_PROTOCOL@ + framed(l1);
    let x2 = domain::FS_PROTOCOL@ + framed(l2);
    if x1 == x2 {
        let k = domain::FS_PROTOCOL@.len() as int;
        assert(x1.subrange(k, x1.len() as int) =~= framed(l1));
        assert(x2.subrange(k, x2.len() as int) =~= framed(l2));
        lemma_le_bytes_len(l1.len(), 8);
        lemma_le_bytes_len(l2.len(), 8);
        lemma_pow256_8();
        assert(framed(l1).subrange(0, 8) =~= le_bytes(l1.len(), 8));
        assert(framed(l2).subrange(0, 8) =~= le_bytes(l2.len(), 8));
        lemma_le_roundtrip(l1.len(), 8);
        lemma_le_roundtrip(l2.len(), 8);
        assert(framed(l1).subrange(8, 8 + l1.len() as int) =~= l1);
        assert(framed(l2).subrange(8, 8 + l2.len() as int) =~= l2);
    }
}

/// Length framing is injective: a framed pair determines both of its parts.
pub proof fn lemma_framed_pair_injective(a1: Seq<u8>, b1: Seq<u8>, a2: Seq<u8>, b2: Seq<u8>)
    requires
        a1.len() < 0x1_0000_0000_0000_0000,
        a2.len() < 0x1_0000_0000_0000_0000,
        framed(a1) + framed(b1) == framed(a2) + framed(b2),
    ensures
        a1 == a2,
        b1 == b2,
{
    let s1 = framed(a1) + framed(b1);
    let s2 = framed(a2) + framed(b2);
    lemma_le_bytes_len(a1.len(), 8);
    lemma_le_bytes_len(a2.len(), 8);
    lemma_pow256_8();
    assert(s1.subrange(0, 8) =~= le_bytes(a1.len(), 8));
    assert(s2.subrange(0, 8) =~= le_bytes(a2.len(), 8));
    lemma_le_roundtrip(a1.len(), 8);
    lemma_le_roundtrip(a2.len(), 8);
    assert(a1.len() == a2.len());
    assert(s1.subrange(8, 8 + a1.len() as int) =~= a1);
    assert(s2.subrange(8, 8 + a2.len() as int) =~= a2);
    assert(s1.subrange(8 + a1.len() as int, s1.len() as int) =~= framed(b1));
    assert(s2.subrange(8 + a2.len() as int, s2.len() as int) =~= framed(b2));
    lemma_le_bytes_len(b1.len(), 8);
    lemma_le_bytes_len(b2.len(), 8);
    assert(framed(b1).subrange(8, framed(b1).len() as int) =~= b1);
    assert(framed(b2).subrange(8, framed(b2).len() as int) =~= b2);
}

/// The byte stream an `absorb` feeds the sponge determines the state, label
/// and data it came from: no two distinct absorptions share an input (the
/// "ab"/"c" versus "a"/"bc" ambiguity cannot arise).
pub proof fn lemma_absorb_input_injective(
    s1: Seq<u8>, l1: Seq<u8>, d1: Seq<u8>,
    s2: Seq<u8>, l2: Seq<u8>, d2: Seq<u8>,
)
    requires
        s1.len() == 64,
        s2.len() == 64,
        l1.len() < 0x1_0000_0000_0000_0000,
        l2.len() < 0x1_0000_0000_0000_0000,
        absorb_input(s1, l1, d1) == absorb_input(s2, l2, d2),
    ensures
        spec_absorb(s1, l1, d1) == shake256(domain::FS_ABSORB@ + s1 + framed(l1) + framed(d1), 64),
        s1 == s2,
        l1 == l2,
        d1 == d2,
{
    let t = domain::FS_ABSORB@;
    let x1 = absorb_input(s1, l1, d1);
    let x2 = absorb_input(s2, l2, d2);
    let k = t.len() as int;
    assert(x1.subrange(k, k + 64) =~= s1);
    assert(x2.subrange(k, k + 64) =~= s2);
    assert(x1.subrange(k + 64, x1.len() as int) =~= framed(l1) + framed(d1));
    assert(x2.subrange(k + 64, x2.len() as int) =~= framed(l2) + framed(d2));
    lemma_framed_pair_injective(l1, d1, l2, d2);
}

} // verus!
