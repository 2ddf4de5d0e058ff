//! Multi-method entropy harvest with per-method untraceability.
//!
//! Each method contributes 64 raw bytes, whitened one-way as
//! `SHAKE256(domain_tag ‖ raw)` before it is folded into the pool. The methods
//! that read the clock, an address, a thread or process identifier take that
//! reading as an argument; the caller performs the read.

use crate::bytes::{encode_le, le_bytes, lemma_le_bytes_len, to_array_64};
use crate::common::domain;
use crate::osrand::os_random;
use crate::xof::{absorbed, shake256, shake2, xof_new, xof_squeeze, xof_update};
use crate::l0_memlock::secure_zero;
use vstd::prelude::*;

verus! {

/// Width of each method's raw output, in bytes.
pub const SOURCE_LEN: usize = 64;

/// Domain tag combining the two timer readings of `hw_counter`:
/// "veil7:L1:src:hw-counter-combine:v1".
pub const HW_COUNTER_COMBINE: [u8; 34] = [0x76, 0x65, 0x69, 0x6c, 0x37, 0x3a, 0x4c, 0x31, 0x3a, 0x73, 0x72, 0x63, 0x3a, 0x68, 0x77, 0x2d, 0x63, 0x6f, 0x75, 0x6e, 0x74, 0x65, 0x72, 0x2d, 0x63, 0x6f, 0x6d, 0x62, 0x69, 0x6e, 0x65, 0x3a, 0x76, 0x31];

/// `x` in `width` little-endian bytes, zero-padded to 64 bytes.
pub open spec fn padded_le(x: nat, width: nat) -> Seq<u8> {
    le_bytes(x, width) + Seq::new((64 - width) as nat, |i: int| 0u8)
}

/// The one-way whitening of a raw buffer under a domain tag.
pub open spec fn spec_whiten(tag: Seq<u8>, raw: Seq<u8>) -> Seq<u8> {
    shake256(tag + raw, 64)
}

/// One method's contribution to the entropy pool.
pub struct EntropySource {
    name: &'static str,
    domain_tag: &'static [u8],
    raw: [u8; 64],
}

impl EntropySource {
    /// The raw buffer.
    pub closed spec fn spec_raw(&self) -> Seq<u8> {
        self.raw@
    }

    /// The domain tag.
    pub closed spec fn spec_tag(&self) -> Seq<u8> {
        self.domain_tag@
    }

    /// The method's name.
    pub closed spec fn spec_name(&self) -> &'static str {
        self.name
    }

    /// Construct a source from a raw buffer.
    pub fn from_raw(name: &'static str, domain_tag: &'static [u8], raw: [u8; 64]) -> (s: Self)
        ensures
            s.spec_raw() == raw@,
            s.spec_tag() == domain_tag@,
            s.spec_name() == name,
    {
        EntropySource { name, domain_tag, raw }
    }

    /// The public name of this method.
    pub fn name(&self) -> (n: &'static str)
        ensures
            n == self.spec_name(),
    {
        self.name
    }

    /// The public domain tag this method is whitened under.
    pub fn domain_tag(&self) -> (t: &'static [u8])
        ensures
            t@ == self.spec_tag(),
    {
        self.domain_tag
    }

    /// The raw buffer (pre-whitening).
    pub fn raw(&self) -> (r: &[u8; 64])
        ensures
            r@ == self.spec_raw(),
    {
        &self.raw
    }

    /// One-way whiten: `SHAKE256(domain_tag ‖ raw)`, 64 bytes.
    pub fn whiten(&self) -> (w: [u8; 64])
        ensures
            w@ == spec_whiten(self.spec_tag(), self.spec_raw()),
    {
        let out = shake2(self.domain_tag, &self.raw, 64);
        to_array_64(&out)
    }

    /// Destroy the raw buffer: every byte becomes zero.
    pub fn wipe(&mut self)
        ensures
            final(self).spec_raw() == Seq::new(64, |i: int| 0u8),
            final(self).spec_tag() == old(self).spec_tag(),
            final(self).spec_name() == old(self).spec_name(),
    {
        let mut i: usize = 0;
        while i < 64
            invariant
                i <= 64,
                self.raw@.len() == 64,
                self.domain_tag == old(self).domain_tag,
                self.name == old(self).name,
                forall|j: int| 0 <= j < i ==> self.raw@[j] == 0,
            decreases 64 - i,
        {
            self.raw[i] = 0;
            i = i + 1;
        }
        assert(self.raw@ =~= Seq::new(64, |i: int| 0u8));
    }
}

impl Drop for EntropySource {
    /// Wipe the raw buffer.
    fn drop(&mut self)
        opens_invariants none
        no_unwind
    {
        secure_zero(&mut self.raw);
    }
}

/// `x` as `width` little-endian bytes followed by zeros, as a 64-byte buffer.
fn padded(x: u128, width: usize) -> (raw: [u8; 64])
    requires
        width <= 64,
    ensures
        raw@ == padded_le(x as nat, width as nat),
{
    let mut v = encode_le(x, width);
    proof { lemma_le_bytes_len(x as nat, width as nat); }
    let ghost head = v@;
    while v.len() < 64
        invariant
            head.len() == width,
            v@.len() <= 64,
            v@.len() >= width,
            v@ == head + Seq::new((v@.len() - width) as nat, |i: int| 0u8),
        decreases 64 - v@.len(),
    {
        v.push(0);
        assert(v@ =~= head + Seq::new((v@.len() - width) as nat, |i: int| 0u8));
    }
    to_array_64(&v)
}

/// 64 bytes from the OS CSPRNG: the cryptographic-primary method.
pub fn os_csprng_primary() -> (r: Result<EntropySource, &'static str>)
    ensures
        r matches Ok(s) ==> s.spec_tag() == domain::ENTROPY_SOURCE_OS_PRIMARY@ && s.spec_raw().len() == 64
            && s.spec_name() == "os_csprng_primary",
        r matches Err(m) ==> m == "os_csprng_primary failed",
{
    match os_random(64) {
        Some(raw) => Ok(EntropySource::from_raw("os_csprng_primary", &domain::ENTROPY_SOURCE_OS_PRIMARY, to_array_64(&raw))),
        None => Err("os_csprng_primary failed"),
    }
}

/// 64 bytes from a second, independent OS CSPRNG call.
pub fn os_csprng_secondary() -> (r: Result<EntropySource, &'static str>)
    ensures
        r matches Ok(s) ==> s.spec_tag() == domain::ENTROPY_SOURCE_OS_SECONDARY@ && s.spec_raw().len() == 64
            && s.spec_name() == "os_csprng_secondary",
        r matches Err(m) ==> m == "os_csprng_secondary failed",
{
    match os_random(64) {
        Some(raw) => Ok(EntropySource::from_raw("os_csprng_secondary", &domain::ENTROPY_SOURCE_OS_SECONDARY, to_array_64(&raw))),
        None => Err("os_csprng_secondary failed"),
    }
}

/// The wall clock (nanoseconds since the epoch, as read by the caller) in the
/// first 16 bytes, zero-padded.
pub fn wall_clock(nanos: u128) -> (s: EntropySource)
    ensures
        s.spec_tag() == domain::ENTROPY_SOURCE_WALL_CLOCK@,
        s.spec_raw() == padded_le(nanos as nat, 16),
        s.spec_name() == "wall_clock",
{
    EntropySource::from_raw("wall_clock", &domain::ENTROPY_SOURCE_WALL_CLOCK, padded(nanos, 16))
}

/// The address of a stack local (as read by the caller) in the first 8 bytes.
pub fn stack_addr(addr: u64) -> (s: EntropySource)
    ensures
        s.spec_tag() == domain::ENTROPY_SOURCE_STACK_ADDR@,
        s.spec_raw() == padded_le(addr as nat, 8),
        s.spec_name() == "stack_addr",
{
    EntropySource::from_raw("stack_addr", &domain::ENTROPY_SOURCE_STACK_ADDR, padded(addr as u128, 8))
}

/// The hashed thread identifier (as computed by the caller) in the first 8 bytes.
pub fn thread_id(tid_hash: u64) -> (s: EntropySource)
    ensures
        s.spec_tag() == domain::ENTROPY_SOURCE_THREAD_ID@,
        s.spec_raw() == padded_le(tid_hash as nat, 8),
        s.spec_name() == "thread_id",
{
    EntropySource::from_raw("thread_id", &domain::ENTROPY_SOURCE_THREAD_ID, padded(tid_hash as u128, 8))
}

/// The two timer readings (monotonic elapsed and wall-clock nanoseconds)
/// combined one-way: `SHAKE256(combine-tag ‖ elapsed ‖ wall)`, 64 bytes.
pub fn hw_counter(elapsed_nanos: u128, wall_nanos: u128) -> (s: EntropySource)
    ensures
        s.spec_tag() == domain::ENTROPY_SOURCE_HW_COUNTER@,
        s.spec_raw() == shake256(HW_COUNTER_COMBINE@ + le_bytes(elapsed_nanos as nat, 16) + le_bytes(wall_nanos as nat, 16), 64),
        s.spec_name() == "hw_counter",
{
    let e = encode_le(elapsed_nanos, 16);
    let w = encode_le(wall_nanos, 16);
    let mut xof = xof_new();
    xof_update(&mut xof, &HW_COUNTER_COMBINE);
    xof_update(&mut xof, e.as_slice());
    xof_update(&mut xof, w.as_slice());
    assert(absorbed(xof) =~= HW_COUNTER_COMBINE@ + e@ + w@);
    let out = xof_squeeze(xof, 64);
    EntropySource::from_raw("hw_counter", &domain::ENTROPY_SOURCE_HW_COUNTER, to_array_64(&out))
}

/// The process identifier (as read by the caller) in the first 4 bytes.
pub fn process_id(pid: u32) -> (s: EntropySource)
    ensures
        s.spec_tag() == domain::ENTROPY_SOURCE_PROCESS_ID@,
        s.spec_raw() == padded_le(pid as nat, 4),
        s.spec_name() == "process_id",
{
    EntropySource::from_raw("process_id", &domain::ENTROPY_SOURCE_PROCESS_ID, padded(pid as u128, 4))
}

/// The address of a heap allocation (as read by the caller) in the first 8 bytes.
pub fn memory_allocation_addr(addr: u64) -> (s: EntropySource)
    ensures
        s.spec_tag() == domain::ENTROPY_SOURCE_MEMORY_ALLOC@,
        s.spec_raw() == padded_le(addr as nat, 8),
        s.spec_name() == "memory_allocation_addr",
{
    EntropySource::from_raw("memory_allocation_addr", &domain::ENTROPY_SOURCE_MEMORY_ALLOC, padded(addr as u128, 8))
}

/// The duration of a cache-stressing access pattern (measured by the caller)
/// in the first 16 bytes.
pub fn cpu_cache_timing(elapsed_nanos: u128) -> (s: EntropySource)
    ensures
        s.spec_tag() == domain::ENTROPY_SOURCE_CPU_CACHE@,
        s.spec_raw() == padded_le(elapsed_nanos as nat, 16),
        s.spec_name() == "cpu_cache_timing",
{
    EntropySource::from_raw("cpu_cache_timing", &domain::ENTROPY_SOURCE_CPU_CACHE, padded(elapsed_nanos, 16))
}

/// The duration of a page-faulting allocation (measured by the caller) in
/// the first 16 bytes.
pub fn page_fault_timing(elapsed_nanos: u128) -> (s: EntropySource)
    ensures
        s.spec_tag() == domain::ENTROPY_SOURCE_PAGE_FAULT@,
        s.spec_raw() == padded_le(elapsed_nanos as nat, 16),
        s.spec_name() == "page_fault_timing",
{
    EntropySource::from_raw("page_fault_timing", &domain::ENTROPY_SOURCE_PAGE_FAULT, padded(elapsed_nanos, 16))
}

/// The duration of a short sleep (measured by the caller) in the first 16 bytes.
pub fn interrupt_timing(elapsed_nanos: u128) -> (s: EntropySource)
    ensures
        s.spec_tag() == domain::ENTROPY_SOURCE_INTERRUPT@,
        s.spec_raw() == padded_le(elapsed_nanos as nat, 16),
        s.spec_name() == "interrupt_timing",
{
    EntropySource::from_raw("interrupt_timing", &domain::ENTROPY_SOURCE_INTERRUPT, padded(elapsed_nanos, 16))
}

/// The duration of memory work under thread contention (measured by the
/// caller) in the first 16 bytes.
pub fn memory_contention_timing(elapsed_nanos: u128) -> (s: EntropySource)
    ensures
        s.spec_tag() == domain::ENTROPY_SOURCE_MEMORY_CONTENTION@,
        s.spec_raw() == padded_le(elapsed_nanos as nat, 16),
        s.spec_name() == "memory_contention_timing",
{
    EntropySource::from_raw("memory_contention_timing", &domain::ENTROPY_SOURCE_MEMORY_CONTENTION, padded(elapsed_nanos, 16))
}

} // verus!
