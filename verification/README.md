# veil7

A stateless, seven-layer post-quantum verification engine, written in Verus.

Each attestation harvests fresh entropy (L1), derives ephemeral ML-KEM-768
and ML-DSA-65 keys from it (L2), commits to the claim under those keys (L3),
signs the commitment (L4), verifies the signature and a KEM round-trip (L5),
wipes every secret (L6) and emits a single validity bit with a 32-byte
transcript digest (L7).

## Layout

- `src/` — the verified library. Every function carries a contract that
  Verus checks; the cryptographic primitives are reached through small
  trusted wrappers (`xof.rs`, `kdf.rs`, `ct.rs`, `osrand.rs`,
  `pq_backends/`) whose contracts name their results.
  - `layers/` — L0 (memory wiping, canaries) to L7 (the verdict).
  - `pipeline.rs`, `hybrid.rs`, `interface.rs` — the end-to-end flows.
  - `chain.rs`, `audit.rs`, `blind.rs`, `commit_reveal.rs` — event chains,
    batch audits, blind attestation and commit-reveal.
  - `execution/` — the MicroVM bytecode interpreter.
  - `codec.rs` — hex encoding and the command line's path filter.
  - `mlock_status.rs` — the kernel's `VmLck` line, checked against the
    bytes a caller expects to have locked.
- `app/` — the command line, file and directory reading, the clock and
  address readings that feed the entropy mix, the `RLIMIT_MEMLOCK` and
  `VmLck` queries, and the floating-point entropy statistics.
- `tests/` — the test suite.

Jitter for the entropy mix comes from a `JitterSource` the caller supplies;
`app/sources.rs` reads the wall clock and a stack address.

Secret buffers (`Locked`, the seed) are heap-allocated and wiped on drop,
but their pages are not pinned in RAM: pinning needs `mlock` through raw
pointers, which the verified library does not use.
