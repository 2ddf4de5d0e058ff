//! L1 — entropy mixing into a self-wiping master seed.
//!
//! Each of the `MIX_ITERATIONS` rounds hashes 48 bytes of OS entropy and 24
//! bytes of timing/address jitter (together with the tag, the round counter
//! and the personalization) into `h1`, rehashes the first half of `h1` into
//! `h2`, and XOR-folds `h2 ‖ h1[32..]` into a 64-byte pool. A final SHAKE256
//! over the pool uniformises it into the [`Seed`]. The jitter comes from a
//! [`JitterSource`] the caller supplies (reading the clock and a stack
//! address is outside the library); every computation on the bytes is here.

use crate::bytes::{le_bytes, to_array_64, u64_le};
use crate::common::domain;
use crate::entropy_sources::{
    hw_counter, os_csprng_primary, os_csprng_secondary, spec_whiten, stack_addr, thread_id,
    wall_clock, EntropySource, padded_le,
};
use crate::l0_memlock::{all_bytes, zeroize_bytes, zeroize_vec, Locked};
use crate::xof::{absorbed, shake256, shake3, xof_new, xof_squeeze, xof_update};
use crate::osrand::os_random;
use crate::VeilError;
use vstd::prelude::*;

verus! {

/// Width of the master seed handed to L2.
pub const SEED_LEN: usize = 64;

/// Number of mix rounds per harvest.
pub const MIX_ITERATIONS: usize = 12;

/// Half of the seed width.
pub const HALF_LEN: usize = 32;

/// A self-zeroising master seed.
pub struct Seed(pub(crate) Locked<64>);

impl View for Seed {
    type V = Seq<u8>;

    closed spec fn view(&self) -> Seq<u8> {
        self.0.spec_bytes()
    }
}

impl Seed {
    /// Whether the seed's buffer is pinned in RAM.
    pub closed spec fn spec_locked(&self) -> bool {
        self.0.spec_locked()
    }

    /// The seed bytes.
    pub fn as_bytes(&self) -> (b: &[u8; 64])
        ensures
            b@ == self@,
    {
        self.0.as_bytes()
    }

    /// Whether the seed's pages are pinned in RAM.
    pub fn is_locked(&self) -> (b: bool)
        ensures
            b == self.spec_locked(),
    {
        self.0.is_locked()
    }

    /// Construct a seed from raw bytes.
    pub fn from_bytes(raw: &[u8; 64]) -> (s: Self)
        ensures
            s@ == raw@,
    {
        let mut locked = Locked::<64>::new();
        let ok = locked.fill_from(raw);
        assert(ok);
        Seed(locked)
    }
}

/// The entry point for externally supplied entropy: the 64 bytes become the seed.
pub fn harvest_external(raw: &[u8; 64]) -> (s: Seed)
    ensures
        s@ == raw@,
{
    Seed::from_bytes(raw)
}

/// `h1` of a mix round.
pub open spec fn spec_h1(i: nat, personalization: Seq<u8>, os_bytes: Seq<u8>, jit: Seq<u8>) -> Seq<u8> {
    shake256(domain::ENTROPY_MIX@ + le_bytes(i, 8) + personalization + os_bytes + jit, 64)
}

/// `h2` of a mix round: the rehash of the first half of `h1`.
pub open spec fn spec_h2(i: nat, h1: Seq<u8>) -> Seq<u8> {
    shake256(domain::ENTROPY_FOLD@ + le_bytes(i, 8) + h1.subrange(0, 32), 32)
}

/// The pool after one mix round: `pool[..32] ⊕ h2` and `pool[32..] ⊕ h1[32..]`.
pub open spec fn spec_mix(i: nat, personalization: Seq<u8>, os_bytes: Seq<u8>, jit: Seq<u8>, pool: Seq<u8>) -> Seq<u8> {
    let h1 = spec_h1(i, personalization, os_bytes, jit);
    let h2 = spec_h2(i, h1);
    Seq::new(64, |k: int| if k < 32 { pool[k] ^ h2[k] } else { pool[k] ^ h1[k] })
}

/// The seed a pool is uniformised into.
pub open spec fn spec_finalize(personalization: Seq<u8>, pool: Seq<u8>) -> Seq<u8> {
    shake256(domain::ENTROPY_FINALIZE@ + personalization + pool, 64)
}

/// One mix round: hash the round's entropy into `h1`, rehash its first half
/// into `h2`, fold both into the pool, and wipe every intermediate.
pub fn mix_round(i: usize, personalization: &[u8], os_bytes: &[u8], jit: &[u8; 24], pool: &mut [u8; 64])
    requires
        os_bytes@.len() == 48,
    ensures
        final(pool)@ == spec_mix(i as nat, personalization@, os_bytes@, jit@, old(pool)@),
{
    let counter = u64_le(i as u64);
    let mut xof = xof_new();
    xof_update(&mut xof, &domain::ENTROPY_MIX);
    xof_update(&mut xof, counter.as_slice());
    xof_update(&mut xof, personalization);
    xof_update(&mut xof, os_bytes);
    xof_update(&mut xof, jit);
    assert(absorbed(xof) =~= domain::ENTROPY_MIX@ + le_bytes(i as nat, 8) + personalization@ + os_bytes@ + jit@);
    let mut h1 = xof_squeeze(xof, 64);

    let mut half1: Vec<u8> = Vec::new();
    let mut k: usize = 0;
    while k < HALF_LEN
        invariant
            k <= 32,
            h1@.len() == 64,
            half1@ == h1@.subrange(0, k as int),
        decreases 32 - k,
    {
        half1.push(h1[k]);
        k = k + 1;
        assert(half1@ =~= h1@.subrange(0, k as int));
    }
    let mut h2 = shake3(&domain::ENTROPY_FOLD, counter.as_slice(), half1.as_slice(), HALF_LEN);

    let ghost start = pool@;
    let mut j: usize = 0;
    while j < SEED_LEN
        invariant
            j <= 64,
            pool@.len() == 64,
            start.len() == 64,
            h1@.len() == 64,
            h2@.len() == 32,
            forall|m: int| j <= m < 64 ==> pool@[m] == start[m],
            forall|m: int| 0 <= m < j ==> pool@[m] == (if m < 32 { start[m] ^ h2@[m] } else { start[m] ^ h1@[m] }),
        decreases 64 - j,
    {
        if j < HALF_LEN {
            pool[j] = pool[j] ^ h2[j];
        } else {
            pool[j] = pool[j] ^ h1[j];
        }
        j = j + 1;
    }
    assert(pool@ =~= spec_mix(i as nat, personalization@, os_bytes@, jit@, start));
    zeroize_vec(&mut h1);
    zeroize_vec(&mut h2);
    zeroize_vec(&mut half1);
}

/// Uniformise the pool into the seed, then wipe the pool.
pub fn finalize_pool(personalization: &[u8], pool: &mut [u8; 64]) -> (s: Seed)
    ensures
        s@ == spec_finalize(personalization@, old(pool)@),
        all_bytes(final(pool)@, 0),
{
    let out = shake3(&domain::ENTROPY_FINALIZE, personalization, pool, 64);
    let bytes = to_array_64(&out);
    let s = Seed::from_bytes(&bytes);
    zeroize_bytes(pool);
    s
}

/// The pool after the first `n` mix rounds, round `i` taking `os[i]` and `jit[i]`.
pub open spec fn spec_pool(personalization: Seq<u8>, os: Seq<Seq<u8>>, jit: Seq<Seq<u8>>, n: nat) -> Seq<u8>
    decreases n,
{
    if n == 0 {
        Seq::new(64, |k: int| 0u8)
    } else {
        let m = (n - 1) as nat;
        spec_mix(m, personalization, os[m as int], jit[m as int], spec_pool(personalization, os, jit, m))
    }
}

/// The seed of a full harvest: `MIX_ITERATIONS` rounds, then the final squeeze.
pub open spec fn spec_harvest(personalization: Seq<u8>, os: Seq<Seq<u8>>, jit: Seq<Seq<u8>>) -> Seq<u8> {
    spec_finalize(personalization, spec_pool(personalization, os, jit, 12))
}

/// The jitter of each round, as byte strings.
pub open spec fn jitter_views(jitter: [[u8; 24]; 12]) -> Seq<Seq<u8>> {
    jitter@.map_values(|j: [u8; 24]| j@)
}

/// The OS bytes of each round, as byte strings.
pub open spec fn os_views(os: [[u8; 48]; 12]) -> Seq<Seq<u8>> {
    os@.map_values(|o: [u8; 48]| o@)
}

/// The harvest on given round inputs: round `i` mixes `os_rounds[i]` and
/// `jitter[i]` into the pool, and the pool is squeezed into the seed.
pub fn harvest_with(personalization: &[u8], os_rounds: &[[u8; 48]; 12], jitter: &[[u8; 24]; 12]) -> (s: Seed)
    ensures
        s@ == spec_harvest(personalization@, os_views(*os_rounds), jitter_views(*jitter)),
{
    let ghost os = os_views(*os_rounds);
    let ghost jit = jitter_views(*jitter);
    let mut pool = [0u8; 64];
    assert(pool@ =~= spec_pool(personalization@, os, jit, 0));
    let mut i: usize = 0;
    while i < MIX_ITERATIONS
        invariant
            i <= 12,
            os == os_views(*os_rounds),
            jit == jitter_views(*jitter),
            pool@ == spec_pool(personalization@, os, jit, i as nat),
        decreases 12 - i,
    {
        let o: &[u8; 48] = &os_rounds[i];
        let j: &[u8; 24] = &jitter[i];
        mix_round(i, personalization, o, j, &mut pool);
        i = i + 1;
    }
    finalize_pool(personalization, &mut pool)
}

/// A source of per-round jitter: cheap, volatile readings (a clock and an
/// address) that differ between rounds. It is defence in depth only; the OS
/// random source carries the entropy.
pub trait JitterSource {
    /// 24 bytes of fresh jitter.
    fn jitter(&mut self) -> [u8; 24];
}

/// The seeds a harvest can produce for `personalization`: those of some 48
/// OS bytes and some 24 bytes of jitter per round.
pub open spec fn harvest_outcome(personalization: Seq<u8>, seed: Seq<u8>) -> bool {
    exists|os: Seq<Seq<u8>>, jit: Seq<Seq<u8>>|
        os.len() == 12 && jit.len() == 12
        && (forall|k: int| 0 <= k < 12 ==> (#[trigger] os[k]).len() == 48 && jit[k].len() == 24)
        && seed == #[trigger] spec_harvest(personalization, os, jit)
}

/// Harvest through `MIX_ITERATIONS` rounds, each reading 48 fresh bytes from
/// the OS source and 24 bytes of jitter. Fails with `Entropy` when an OS read
/// fails.
pub fn harvest<J: JitterSource>(personalization: &[u8], jitter: &mut J) -> (r: Result<Seed, VeilError>)
    ensures
        r matches Err(e) ==> e == VeilError::Entropy,
        r matches Ok(s) ==> harvest_outcome(personalization@, s@),
{
    let ghost mut jit: Seq<Seq<u8>> = Seq::empty();
    let ghost mut os: Seq<Seq<u8>> = Seq::empty();
    let mut pool = [0u8; 64];
    assert(pool@ =~= spec_pool(personalization@, os, jit, 0));
    let mut i: usize = 0;
    while i < MIX_ITERATIONS
        invariant
            i <= 12,
            os.len() == i,
            jit.len() == i,
            forall|k: int| 0 <= k < i ==> (#[trigger] os[k]).len() == 48 && jit[k].len() == 24,
            pool@ == spec_pool(personalization@, os, jit, i as nat),
        decreases 12 - i,
    {
        let mut os_bytes = match os_random(48) {
            Some(v) => v,
            None => {
                zeroize_bytes(&mut pool);
                return Err(VeilError::Entropy);
            },
        };
        let mut jit_bytes = jitter.jitter();
        let ghost os_before = os;
        let ghost jit_before = jit;
        mix_round(i, personalization, os_bytes.as_slice(), &jit_bytes, &mut pool);
        proof {
            os = os.push(os_bytes@);
            jit = jit.push(jit_bytes@);
            lemma_pool_prefix(personalization@, os_before, os, jit_before, jit, i as nat);
        }
        zeroize_vec(&mut os_bytes);
        zeroize_bytes(&mut jit_bytes);
        i = i + 1;
    }
    let s = finalize_pool(personalization, &mut pool);
    assert(s@ == spec_harvest(personalization@, os, jit));
    Ok(s)
}

/// The pool after `n` rounds reads only the first `n` round inputs.
proof fn lemma_pool_prefix(p: Seq<u8>, a: Seq<Seq<u8>>, b: Seq<Seq<u8>>, ja: Seq<Seq<u8>>, jb: Seq<Seq<u8>>, n: nat)
    requires
        n <= a.len(),
        n <= b.len(),
        n <= ja.len(),
        n <= jb.len(),
        forall|k: int| 0 <= k < n ==> a[k] == b[k] && ja[k] == jb[k],
    ensures
        spec_pool(p, b, jb, n) == spec_pool(p, a, ja, n),
    decreases n,
{
    if n > 0 {
        lemma_pool_prefix(p, a, b, ja, jb, (n - 1) as nat);
    }
}

/// The readings the multi-source harvest takes from the clock, addresses
/// and identifiers (the OS random bytes it reads itself).
pub struct SourceReadings {
    /// Wall-clock nanoseconds since the Unix epoch.
    pub wall_nanos: u128,
    /// Address of a stack local.
    pub stack_addr: u64,
    /// Hash of the current thread's identifier.
    pub thread_id_hash: u64,
    /// Nanoseconds elapsed on the monotonic clock.
    pub elapsed_nanos: u128,
    /// A second wall-clock reading, combined with the elapsed time.
    pub counter_wall_nanos: u128,
}

/// XOR of 64-byte strings.
pub open spec fn spec_xor_fold(ws: Seq<Seq<u8>>) -> Seq<u8>
    decreases ws.len(),
{
    if ws.len() == 0 {
        Seq::new(64, |k: int| 0u8)
    } else {
        let rest = spec_xor_fold(ws.drop_last());
        Seq::new(64, |k: int| rest[k] ^ ws.last()[k])
    }
}

/// `(x ⊕ z) ⊕ y == (x ⊕ y) ⊕ z`.
proof fn lemma_xor_exchange(x: u8, y: u8, z: u8)
    ensures
        (x ^ z) ^ y == (x ^ y) ^ z,
{
    assert((x ^ z) ^ y == (x ^ y) ^ z) by (bit_vector);
}

/// The XOR fold does not depend on the order of the contributions:
/// exchanging two neighbouring contributions leaves the pool unchanged.
pub proof fn lemma_xor_fold_swap(ws: Seq<Seq<u8>>, i: int)
    requires
        0 <= i,
        i + 1 < ws.len(),
    ensures
        spec_xor_fold(ws.update(i, ws[i + 1]).update(i + 1, ws[i])) == spec_xor_fold(ws),
    decreases ws.len(),
{
    let sw = ws.update(i, ws[i + 1]).update(i + 1, ws[i]);
    if i + 2 == ws.len() {
        let base = ws.drop_last().drop_last();
        assert(sw.drop_last().drop_last() =~= base);
        assert(sw.drop_last().last() == ws[i + 1]);
        assert(ws.drop_last().last() == ws[i]);
        let r = spec_xor_fold(base);
        let left = spec_xor_fold(sw);
        let right = spec_xor_fold(ws);
        let mid_l = spec_xor_fold(sw.drop_last());
        let mid_r = spec_xor_fold(ws.drop_last());
        assert forall|k: int| 0 <= k < 64 implies left[k] == right[k] by {
            assert(mid_l[k] == r[k] ^ ws[i + 1][k]);
            assert(mid_r[k] == r[k] ^ ws[i][k]);
            assert(left[k] == mid_l[k] ^ ws[i][k]);
            assert(right[k] == mid_r[k] ^ ws[i + 1][k]);
            lemma_xor_exchange(r[k], ws[i][k], ws[i + 1][k]);
        }
        assert(left =~= right);
    } else {
        lemma_xor_fold_swap(ws.drop_last(), i);
        assert(sw.drop_last() =~= ws.drop_last().update(i, ws[i + 1]).update(i + 1, ws[i]));
    }
}

/// Folding a single 64-byte contribution gives it back.
pub proof fn lemma_xor_fold_single(w: Seq<u8>)
    requires
        w.len() == 64,
    ensures
        spec_xor_fold(seq![w]) == w,
{
    let f = spec_xor_fold(seq![w]);
    assert(seq![w].drop_last() =~= Seq::<Seq<u8>>::empty());
    let z = spec_xor_fold(Seq::<Seq<u8>>::empty());
    assert forall|k: int| 0 <= k < 64 implies f[k] == w[k] by {
        assert(z[k] == 0);
        assert(f[k] == z[k] ^ w[k]);
        let v = w[k];
        assert(0u8 ^ v == v) by (bit_vector);
    }
    assert(f =~= w);
}

/// The whitened contributions of the deterministic methods.
pub open spec fn spec_reading_whitens(r: SourceReadings) -> Seq<Seq<u8>> {
    seq![
        spec_whiten(domain::ENTROPY_SOURCE_WALL_CLOCK@, padded_le(r.wall_nanos as nat, 16)),
        spec_whiten(domain::ENTROPY_SOURCE_STACK_ADDR@, padded_le(r.stack_addr as nat, 8)),
        spec_whiten(domain::ENTROPY_SOURCE_THREAD_ID@, padded_le(r.thread_id_hash as nat, 8)),
        spec_whiten(
            domain::ENTROPY_SOURCE_HW_COUNTER@,
            shake256(crate::entropy_sources::HW_COUNTER_COMBINE@ + le_bytes(r.elapsed_nanos as nat, 16)
                + le_bytes(r.counter_wall_nanos as nat, 16), 64),
        )
    ]
}

/// The seed the multi-source harvest derives from the primary OS bytes, the
/// secondary OS bytes when that read succeeded, and the readings.
pub open spec fn spec_multi_source_seed(
    personalization: Seq<u8>,
    primary: Seq<u8>,
    secondary: Option<Seq<u8>>,
    r: SourceReadings,
) -> Seq<u8> {
    let head = match secondary {
        Some(s) => seq![
            spec_whiten(domain::ENTROPY_SOURCE_OS_PRIMARY@, primary),
            spec_whiten(domain::ENTROPY_SOURCE_OS_SECONDARY@, s),
        ],
        None => seq![spec_whiten(domain::ENTROPY_SOURCE_OS_PRIMARY@, primary)],
    };
    spec_finalize(personalization, spec_xor_fold(head + spec_reading_whitens(r)))
}

/// Fold one whitened source into the pool.
fn fold_source(pool: &mut [u8; 64], src: &EntropySource)
    ensures
        final(pool)@ == Seq::new(64, |k: int| old(pool)@[k] ^ spec_whiten(src.spec_tag(), src.spec_raw())[k]),
{
    let w = src.whiten();
    let ghost start = pool@;
    let mut k: usize = 0;
    while k < SEED_LEN
        invariant
            k <= 64,
            pool@.len() == 64,
            start.len() == 64,
            w@.len() == 64,
            forall|m: int| k <= m < 64 ==> pool@[m] == start[m],
            forall|m: int| 0 <= m < k ==> pool@[m] == start[m] ^ w@[m],
        decreases 64 - k,
    {
        pool[k] = pool[k] ^ w[k];
        k = k + 1;
    }
    assert(pool@ =~= Seq::new(64, |m: int| start[m] ^ w@[m]));
}

/// The multi-source seed from the primary OS bytes, the secondary OS bytes
/// when that read succeeded, and the deterministic readings: each method is
/// whitened one-way under its domain tag, the whitened contributions are
/// XOR-folded, and the pool is finalised under the personalization. Every
/// intermediate buffer is wiped.
pub fn multi_source_seed(
    personalization: &[u8],
    primary: &[u8; 64],
    secondary: Option<&[u8; 64]>,
    readings: &SourceReadings,
) -> (s: Seed)
    ensures
        s@ == spec_multi_source_seed(
            personalization@,
            primary@,
            match secondary {
                Some(x) => Some(x@),
                None => None,
            },
            *readings,
        ),
{
    let ghost p = primary@;
    let mut src1 = EntropySource::from_raw("os_csprng_primary", &domain::ENTROPY_SOURCE_OS_PRIMARY, *primary);
    let mut pool = [0u8; 64];
    let ghost mut ws: Seq<Seq<u8>> = Seq::empty();
    assert(pool@ =~= spec_xor_fold(ws));
    fold_source(&mut pool, &src1);
    proof {
        ws = ws.push(spec_whiten(src1.spec_tag(), src1.spec_raw()));
        assert(ws.drop_last() =~= Seq::<Seq<u8>>::empty());
        assert(pool@ =~= spec_xor_fold(ws));
    }
    src1.wipe();
    let ghost sec: Option<Seq<u8>> = match secondary {
        Some(x) => Some(x@),
        None => None,
    };
    match secondary {
        Some(bytes) => {
            let mut src2 = EntropySource::from_raw("os_csprng_secondary", &domain::ENTROPY_SOURCE_OS_SECONDARY, *bytes);
            fold_source(&mut pool, &src2);
            proof {
                let prev = ws;
                ws = ws.push(spec_whiten(src2.spec_tag(), src2.spec_raw()));
                assert(ws.drop_last() =~= prev);
                assert(pool@ =~= spec_xor_fold(ws));
                assert(ws =~= seq![
                    spec_whiten(domain::ENTROPY_SOURCE_OS_PRIMARY@, p),
                    spec_whiten(domain::ENTROPY_SOURCE_OS_SECONDARY@, bytes@),
                ]);
            }
            src2.wipe();
        },
        None => {
            assert(ws =~= seq![spec_whiten(domain::ENTROPY_SOURCE_OS_PRIMARY@, p)]);
        },
    }
    let ghost head = ws;
    assert(head == match sec {
        Some(x) => seq![
            spec_whiten(domain::ENTROPY_SOURCE_OS_PRIMARY@, p),
            spec_whiten(domain::ENTROPY_SOURCE_OS_SECONDARY@, x),
        ],
        None => seq![spec_whiten(domain::ENTROPY_SOURCE_OS_PRIMARY@, p)],
    });
    let mut w1 = wall_clock(readings.wall_nanos);
    fold_source(&mut pool, &w1);
    proof {
        let prev = ws;
        ws = ws.push(spec_whiten(w1.spec_tag(), w1.spec_raw()));
        assert(ws.drop_last() =~= prev);
        assert(pool@ =~= spec_xor_fold(ws));
    }
    w1.wipe();
    let mut w2 = stack_addr(readings.stack_addr);
    fold_source(&mut pool, &w2);
    proof {
        let prev = ws;
        ws = ws.push(spec_whiten(w2.spec_tag(), w2.spec_raw()));
        assert(ws.drop_last() =~= prev);
        assert(pool@ =~= spec_xor_fold(ws));
    }
    w2.wipe();
    let mut w3 = thread_id(readings.thread_id_hash);
    fold_source(&mut pool, &w3);
    proof {
        let prev = ws;
        ws = ws.push(spec_whiten(w3.spec_tag(), w3.spec_raw()));
        assert(ws.drop_last() =~= prev);
        assert(pool@ =~= spec_xor_fold(ws));
    }
    w3.wipe();
    let mut w4 = hw_counter(readings.elapsed_nanos, readings.counter_wall_nanos);
    fold_source(&mut pool, &w4);
    proof {
        let prev = ws;
        ws = ws.push(spec_whiten(w4.spec_tag(), w4.spec_raw()));
        assert(ws.drop_last() =~= prev);
        assert(pool@ =~= spec_xor_fold(ws));
        assert(ws =~= head + spec_reading_whitens(*readings));
    }
    w4.wipe();
    let ghost final_pool = pool@;
    assert(final_pool == spec_xor_fold(head + spec_reading_whitens(*readings)));
    finalize_pool(personalization, &mut pool)
}

/// Harvest from several independent methods: read the primary and (best
/// effort) the secondary OS bytes, then derive the seed from them and the
/// readings with `multi_source_seed`. Fails with `Entropy` only when the
/// primary OS read fails.
pub fn harvest_multi_source(personalization: &[u8], readings: &SourceReadings) -> (r: Result<Seed, VeilError>)
    ensures
        r matches Err(e) ==> e == VeilError::Entropy,
        r matches Ok(s) ==> exists|p: Seq<u8>, sec: Option<Seq<u8>>|
            p.len() == 64 && (sec matches Some(x) ==> x.len() == 64)
            && s@ == #[trigger] spec_multi_source_seed(personalization@, p, sec, *readings),
{
    let mut primary = match os_csprng_primary() {
        Ok(s) => s,
        Err(_) => return Err(VeilError::Entropy),
    };
    let seed = match os_csprng_secondary() {
        Ok(mut secondary) => {
            let seed = multi_source_seed(personalization, primary.raw(), Some(secondary.raw()), readings);
            secondary.wipe();
            seed
        },
        Err(_) => multi_source_seed(personalization, primary.raw(), None, readings),
    };
    primary.wipe();
    Ok(seed)
}

} // verus!
