//! Little-endian integer encodings and byte-level helpers shared by every layer.

use vstd::prelude::*;

verus! {

/// The `n`-byte little-endian encoding of `x` (bytes beyond the value are zero).
pub open spec fn le_bytes(x: nat, n: nat) -> Seq<u8>
    decreases n,
{
    if n == 0 {
        Seq::empty()
    } else {
        seq![(x % 256) as u8] + le_bytes(x / 256, (n - 1) as nat)
    }
}

/// The value of a little-endian byte string.
pub open spec fn le_value(s: Seq<u8>) -> nat
    decreases s.len(),
{
    if s.len() == 0 {
        0
    } else {
        s[0] as nat + 256 * le_value(s.drop_first())
    }
}

/// `256^n`.
pub open spec fn pow256(n: nat) -> nat
    decreases n,
{
    if n == 0 {
        1
    } else {
        256 * pow256((n - 1) as nat)
    }
}

pub proof fn lemma_le_bytes_len(x: nat, n: nat)
    ensures
        le_bytes(x, n).len() == n,
    decreases n,
{
    if n > 0 {
        lemma_le_bytes_len(x / 256, (n - 1) as nat);
    }
}

/// Decoding an encoding gives the value back, for values that fit.
pub proof fn lemma_le_roundtrip(x: nat, n: nat)
    requires
        x < pow256(n),
    ensures
        le_value(le_bytes(x, n)) == x,
    decreases n,
{
    if n > 0 {
        lemma_le_bytes_len(x / 256, (n - 1) as nat);
        assert(x / 256 < pow256((n - 1) as nat)) by (nonlinear_arith)
            requires x < 256 * pow256((n - 1) as nat);
        lemma_le_roundtrip(x / 256, (n - 1) as nat);
        let s = le_bytes(x, n);
        assert(s.drop_first() =~= le_bytes(x / 256, (n - 1) as nat));
    }
}

/// A little-endian value is below `256^len`.
pub proof fn lemma_le_value_bound(s: Seq<u8>)
    ensures
        le_value(s) < pow256(s.len()),
    decreases s.len(),
{
    if s.len() > 0 {
        lemma_le_value_bound(s.drop_first());
        let r = le_value(s.drop_first());
        let p = pow256(s.drop_first().len());
        assert(s[0] as nat + 256 * r < 256 * p) by (nonlinear_arith)
            requires s[0] < 256, r < p;
    }
}

pub proof fn lemma_pow256_8()
    ensures
        pow256(8) == 0x1_0000_0000_0000_0000,
        pow256(16) == 0x1_0000_0000_0000_0000_0000_0000_0000_0000,
        pow256(4) == 0x1_0000_0000,
{
    reveal_with_fuel(pow256, 17);
}

/// Encode `x` as `n` little-endian bytes.
pub fn encode_le(x: u128, n: usize) -> (out: Vec<u8>)
    ensures
        out@ == le_bytes(x as nat, n as nat),
{
    let mut out: Vec<u8> = Vec::new();
    let mut v: u128 = x;
    let mut i: usize = 0;
    while i < n
        invariant
            i <= n,
            out@ + le_bytes(v as nat, (n - i) as nat) == le_bytes(x as nat, n as nat),
        decreases n - i,
    {
        let b: u8 = (v % 256) as u8;
        proof {
            let rest = le_bytes(v as nat, (n - i) as nat);
            assert(rest == seq![b] + le_bytes((v / 256) as nat, (n - i - 1) as nat));
            assert(out@.push(b) + le_bytes((v / 256) as nat, (n - i - 1) as nat)
                =~= out@ + rest);
        }
        out.push(b);
        v = v / 256;
        i = i + 1;
    }
    assert(out@ + le_bytes(v as nat, 0) =~= out@);
    out
}

/// The 8-byte little-endian encoding of a `u64` (what `u64::to_le_bytes` yields).
pub fn u64_le(x: u64) -> (out: Vec<u8>)
    ensures
        out@ == le_bytes(x as nat, 8),
        out@.len() == 8,
{
    proof { lemma_le_bytes_len(x as nat, 8); }
    encode_le(x as u128, 8)
}

/// Decode eight little-endian bytes starting at `start` (what `u64::from_le_bytes` yields).
pub fn decode_u64_le(s: &[u8], start: usize) -> (v: u64)
    requires
        start + 8 <= s@.len(),
    ensures
        v as nat == le_value(s@.subrange(start as int, start + 8)),
{
    let mut v: u64 = 0;
    let mut j: usize = 8;
    let n: usize = s.len();
    proof { lemma_pow256_8(); }
    while j > 0
        invariant
            j <= 8,
            start + 8 <= s@.len(),
            n == s@.len(),
            v as nat == le_value(s@.subrange(start + j, start + 8)),
            pow256(8) == 0x1_0000_0000_0000_0000,
        decreases j,
    {
        let ghost tail = s@.subrange(start + j, start + 8);
        let ghost next = s@.subrange(start + j - 1, start + 8);
        proof {
            assert(next.drop_first() =~= tail);
            lemma_le_value_bound(next);
            assert(pow256(next.len()) <= pow256(8)) by {
                lemma_pow256_mono(next.len(), 8);
            }
        }
        let b: u64 = s[start + j - 1] as u64;
        v = b + 256 * v;
        j = j - 1;
    }
    v
}

pub proof fn lemma_pow256_mono(a: nat, b: nat)
    requires
        a <= b,
    ensures
        pow256(a) <= pow256(b),
    decreases b,
{
    if a < b {
        lemma_pow256_mono(a, (b - 1) as nat);
        lemma_pow256_pos((b - 1) as nat);
    }
}

pub proof fn lemma_pow256_pos(a: nat)
    ensures
        pow256(a) >= 1,
    decreases a,
{
    if a > 0 {
        lemma_pow256_pos((a - 1) as nat);
    }
}

} // verus!

verus! {

/// Copy a 64-byte vector into an array.
pub fn to_array_64(v: &Vec<u8>) -> (a: [u8; 64])
    requires
        v@.len() == 64,
    ensures
        a@ == v@,
{
    let mut a = [0u8; 64];
    let mut i: usize = 0;
    while i < 64
        invariant
            i <= 64,
            v@.len() == 64,
            a@.len() == 64,
            forall|j: int| 0 <= j < i ==> a@[j] == v@[j],
        decreases 64 - i,
    {
        a[i] = v[i];
        i = i + 1;
    }
    assert(a@ =~= v@);
    a
}

/// Copy a 32-byte vector into an array.
pub fn to_array_32(v: &Vec<u8>) -> (a: [u8; 32])
    requires
        v@.len() == 32,
    ensures
        a@ == v@,
{
    let mut a = [0u8; 32];
    let mut i: usize = 0;
    while i < 32
        invariant
            i <= 32,
            v@.len() == 32,
            a@.len() == 32,
            forall|j: int| 0 <= j < i ==> a@[j] == v@[j],
        decreases 32 - i,
    {
        a[i] = v[i];
        i = i + 1;
    }
    assert(a@ =~= v@);
    a
}

/// Copy `src` into the slice `out` of the same length.
pub fn copy_into(out: &mut [u8], src: &Vec<u8>)
    requires
        old(out)@.len() == src@.len(),
    ensures
        final(out)@ == src@,
{
    let n = out.len();
    let mut i: usize = 0;
    while i < n
        invariant
            i <= n,
            n == out@.len(),
            n == src@.len(),
            forall|j: int| 0 <= j < i ==> out@[j] == src@[j],
        decreases n - i,
    {
        out[i] = src[i];
        i = i + 1;
    }
    assert(out@ =~= src@);
}

/// How many distinct values the bytes take, computed with a 256-entry table.
pub fn count_distinct(bytes: &[u8]) -> (n: usize)
    ensures
        n == bytes@.to_set().len(),
        n <= 256,
{
    broadcast use vstd::seq_lib::seq_to_set_is_finite;
    let mut seen: Vec<bool> = Vec::new();
    let mut b: usize = 0;
    while b < 256
        invariant
            b <= 256,
            seen@.len() == b,
            forall|k: int| 0 <= k < b ==> !seen@[k],
        decreases 256 - b,
    {
        seen.push(false);
        b = b + 1;
    }
    let len = bytes.len();
    let mut count: usize = 0;
    let mut i: usize = 0;
    assert(bytes@.subrange(0, 0).to_set() =~= Set::<u8>::empty());
    while i < len
        invariant
            i <= len,
            len == bytes@.len(),
            seen@.len() == 256,
            count == bytes@.subrange(0, i as int).to_set().len(),
            count <= 256,
            forall|k: int| 0 <= k < 256 ==> (seen@[k] <==> bytes@.subrange(0, i as int).to_set().contains(k as u8)),
        decreases len - i,
    {
        let x = bytes[i];
        let ghost prev = bytes@.subrange(0, i as int);
        let ghost next = bytes@.subrange(0, i + 1);
        assert(next.to_set() =~= prev.to_set().insert(x)) by {
            assert forall|v: u8| next.to_set().contains(v) <==> prev.to_set().insert(x).contains(v) by {
                if next.contains(v) {
                    let k = choose|k: int| 0 <= k < next.len() && next[k] == v;
                    if k < i {
                        assert(prev[k] == v);
                    }
                }
                if prev.contains(v) {
                    let k = choose|k: int| 0 <= k < prev.len() && prev[k] == v;
                    assert(next[k] == v);
                }
                if v == x {
                    assert(next[i as int] == x);
                }
            }
        }
        if !seen[x as usize] {
            assert(!prev.to_set().contains(x)) by {
                assert(seen@[x as int] == false);
                assert((x as int) as u8 == x);
            }
            seen.set(x as usize, true);
            proof {
                vstd::set::axiom_set_insert_len(prev.to_set(), x);
                assert(next.to_set().len() <= 256) by {
                    lemma_byte_set_bound(next.to_set());
                }
            }
            count = count + 1;
        } else {
            assert(prev.to_set().contains(x)) by {
                assert((x as int) as u8 == x);
            }
            assert(prev.to_set().insert(x) =~= prev.to_set());
        }
        proof {
            assert forall|k: int| 0 <= k < 256 implies (seen@[k] <==> next.to_set().contains(k as u8)) by {
                if k == x as int {
                    assert(k as u8 == x);
                } else {
                    assert(k as u8 != x);
                }
            }
        }
        i = i + 1;
    }
    assert(bytes@.subrange(0, len as int) =~= bytes@);
    count
}

/// A set of bytes has at most 256 members.
pub proof fn lemma_byte_set_bound(s: Set<u8>)
    requires
        s.finite(),
    ensures
        s.len() <= 256,
{
    let low = Set::<u8>::range(0u8, 255u8);
    vstd::set_lib::range_set_properties::<u8>(0u8, 255u8);
    let full = low.insert(255u8);
    assert(!low.contains(255u8));
    assert(full.len() == 256);
    assert(s.subset_of(full));
    vstd::set_lib::lemma_len_subset(s, full);
}

} // verus!
