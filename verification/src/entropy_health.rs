//! Entropy health tests (NIST SP 800-90B §4.4).
//!
//! The Repetition Count Test detects a stuck source; the Adaptive Proportion
//! Test detects a biased one. Both are integer-only; the floating-point
//! min-entropy estimate lives with the caller. The health check of one
//! source's 64 raw bytes decides its min-entropy threshold exactly in
//! integers.

use crate::entropy_sources::EntropySource;
use vstd::prelude::*;

verus! {

/// The number of consecutive samples equal to `s[k]` ending at position `k`.
pub open spec fn run_len(s: Seq<u8>, k: int) -> nat
    decreases k,
{
    if k <= 0 {
        1
    } else if s[k] == s[k - 1] {
        run_len(s, k - 1) + 1
    } else {
        1
    }
}

/// How often `v` occurs in `s`.
pub open spec fn occurrences(s: Seq<u8>, v: u8) -> nat
    decreases s.len(),
{
    if s.len() == 0 {
        0
    } else {
        occurrences(s.drop_last(), v) + (if s.last() == v { 1nat } else { 0nat })
    }
}

/// The repetition threshold a cutoff stands for: at least two equal samples.
pub open spec fn rct_limit(cutoff: usize) -> nat {
    if cutoff < 2 { 2 } else { cutoff as nat }
}

/// Repetition Count Test: `true` (pass) unless some run of consecutive equal
/// samples reaches `cutoff` (a single repeat fails for a cutoff below 2).
pub fn repetition_count_test(samples: &[u8], cutoff: usize) -> (pass: bool)
    ensures
        pass == (forall|k: int| 0 <= k < samples@.len() ==> run_len(samples@, k) < rct_limit(cutoff)),
{
    let n = samples.len();
    if n == 0 {
        return true;
    }
    let mut count: usize = 1;
    let mut prev = samples[0];
    let mut k: usize = 1;
    while k < n
        invariant
            1 <= k <= n,
            n == samples@.len(),
            prev == samples@[k - 1],
            count as nat == run_len(samples@, k - 1),
            count as nat <= k,
            forall|j: int| 0 <= j < k ==> run_len(samples@, j) < rct_limit(cutoff),
        decreases n - k,
    {
        let sample = samples[k];
        if sample == prev {
            count = count + 1;
            if count >= cutoff {
                assert(run_len(samples@, k as int) >= rct_limit(cutoff));
                return false;
            }
        } else {
            prev = sample;
            count = 1;
        }
        assert(count as nat == run_len(samples@, k as int));
        k = k + 1;
    }
    true
}

/// The number of times the most frequent byte value occurs (0 for no samples).
pub fn max_occurrences(samples: &[u8]) -> (m: usize)
    ensures
        forall|v: u8| occurrences(samples@, v) <= m,
        samples@.len() == 0 ==> m == 0,
        samples@.len() > 0 ==> exists|v: u8| occurrences(samples@, v) == m,
{
    let n = samples.len();
    let mut counts = [0usize; 256];
    let mut k: usize = 0;
    assert forall|v: u8| occurrences(samples@.subrange(0, 0), v) == 0 by {
        assert(samples@.subrange(0, 0).len() == 0);
    }
    while k < n
        invariant
            k <= n,
            n == samples@.len(),
            counts@.len() == 256,
            forall|v: u8| #[trigger] counts@[v as int] == occurrences(samples@.subrange(0, k as int), v),
            forall|v: u8| occurrences(samples@.subrange(0, k as int), v) <= k,
        decreases n - k,
    {
        let sample = samples[k];
        proof {
            let pre = samples@.subrange(0, k as int);
            let post = samples@.subrange(0, k + 1);
            assert(post.drop_last() =~= pre);
            assert forall|v: u8| occurrences(post, v) == occurrences(pre, v) + (if sample == v { 1nat } else { 0nat }) by {}
        }
        let idx = sample as usize;
        counts[idx] = counts[idx] + 1;
        k = k + 1;
        proof {
            let post = samples@.subrange(0, k as int);
            assert forall|v: u8| #[trigger] counts@[v as int] == occurrences(post, v) by {
                if v != sample {
                    assert(v as int != idx as int);
                }
            }
        }
    }
    assert(samples@.subrange(0, n as int) =~= samples@);
    let mut max_count: usize = 0;
    let mut v: usize = 0;
    while v < 256
        invariant
            v <= 256,
            counts@.len() == 256,
            forall|w: u8| #[trigger] counts@[w as int] == occurrences(samples@, w),
            forall|w: int| 0 <= w < v ==> counts@[w] <= max_count,
            v == 0 ==> max_count == 0,
            v > 0 ==> exists|w: int| 0 <= w < v && counts@[w] == max_count,
        decreases 256 - v,
    {
        if counts[v] > max_count {
            max_count = counts[v];
        }
        v = v + 1;
    }
    proof {
        assert forall|w: u8| occurrences(samples@, w) <= max_count by {
            assert(counts@[w as int] <= max_count);
        }
        let w = choose|w: int| 0 <= w < 256 && counts@[w] == max_count;
        let wb = w as u8;
        assert(counts@[wb as int] == occurrences(samples@, wb));
        if n == 0 {
            assert(occurrences(samples@, wb) == 0);
        }
    }
    max_count
}

/// Adaptive Proportion Test: `true` (pass) for empty samples, otherwise
/// exactly when no byte value occurs `cutoff` times or more.
pub fn adaptive_proportion_test(samples: &[u8], cutoff: usize) -> (pass: bool)
    ensures
        pass == (samples@.len() == 0 || forall|v: u8| occurrences(samples@, v) < cutoff),
{
    if samples.len() == 0 {
        return true;
    }
    let max_count = max_occurrences(samples);
    proof {
        if max_count >= cutoff {
            let w = choose|w: u8| occurrences(samples@, w) == max_count;
            assert(occurrences(samples@, w) >= cutoff);
        }
    }
    max_count < cutoff
}

/// Whether the empirical min-entropy `-log2(max_v occurrences(v) / len)` of
/// non-empty samples is at least 6 bits: no byte value occurs in more than
/// one sample in 64.
pub open spec fn min_entropy_at_least_6_bits(s: Seq<u8>) -> bool {
    s.len() > 0 && forall|v: u8| occurrences(s, v) * 64 <= s.len()
}

/// The Repetition Count Test's verdict.
pub open spec fn rct_passes(s: Seq<u8>, cutoff: usize) -> bool {
    forall|k: int| 0 <= k < s.len() ==> run_len(s, k) < rct_limit(cutoff)
}

/// The Adaptive Proportion Test's verdict.
pub open spec fn apt_passes(s: Seq<u8>, cutoff: usize) -> bool {
    s.len() == 0 || forall|v: u8| occurrences(s, v) < cutoff
}

/// Health-check a source's raw bytes: at least 6 bits of min-entropy, then
/// the Repetition Count Test with cutoff 10, then the Adaptive Proportion
/// Test with cutoff half the sample count; the first failing test names the
/// error.
pub fn health_check_source(source: &EntropySource) -> (r: Result<(), &'static str>)
    ensures
        !min_entropy_at_least_6_bits(source.spec_raw()) ==> r == Err::<(), &'static str>("Entropy quality below threshold"),
        min_entropy_at_least_6_bits(source.spec_raw()) && !rct_passes(source.spec_raw(), 10)
            ==> r == Err::<(), &'static str>("Repetition count test failed"),
        min_entropy_at_least_6_bits(source.spec_raw()) && rct_passes(source.spec_raw(), 10)
            && !apt_passes(source.spec_raw(), 32) ==> r == Err::<(), &'static str>("Adaptive proportion test failed"),
        r is Ok <==> (min_entropy_at_least_6_bits(source.spec_raw()) && rct_passes(source.spec_raw(), 10)
            && apt_passes(source.spec_raw(), 32)),
{
    let raw: &[u8; 64] = source.raw();
    let samples: &[u8] = raw;
    let n = samples.len();
    let m = max_occurrences(samples);
    proof {
        let w = choose|w: u8| occurrences(samples@, w) == m;
        if m <= n / 64 {
            assert forall|v: u8| occurrences(samples@, v) * 64 <= samples@.len() by {
                let c = occurrences(samples@, v);
                assert(c <= m);
                assert(c * 64 <= n) by (nonlinear_arith)
                    requires
                        c <= n / 64,
                ;
            }
        } else {
            assert(occurrences(samples@, w) * 64 > samples@.len()) by (nonlinear_arith)
                requires
                    occurrences(samples@, w) == m,
                    m > n / 64,
                    n == samples@.len(),
            ;
        }
    }
    if m > n / 64 {
        return Err("Entropy quality below threshold");
    }
    if !repetition_count_test(samples, 10) {
        return Err("Repetition count test failed");
    }
    if !adaptive_proportion_test(samples, n / 2) {
        return Err("Adaptive proportion test failed");
    }
    Ok(())
}

} // verus!
