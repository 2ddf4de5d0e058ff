//! Domain-separation tags.
//!
//! Every place that absorbs into SHAKE256 prefixes one of these tags so two
//! different protocol steps can never feed the sponge the same byte stream.

use vstd::prelude::*;

verus! {

/// Per-iteration full entropy stretch (L1 mix step 1: harvest → SHAKE256).
pub const ENTROPY_MIX: [u8; 23] = [0x76, 0x65, 0x69, 0x6c, 0x37, 0x3a, 0x4c, 0x31, 0x3a, 0x65, 0x6e, 0x74, 0x72, 0x6f, 0x70, 0x79, 0x2d, 0x6d, 0x69, 0x78, 0x3a, 0x76, 0x31]; // "veil7:L1:entropy-mix:v1"
/// Per-iteration slice-and-rehash (L1 mix step 2: slice half → SHAKE256).
pub const ENTROPY_FOLD: [u8; 24] = [0x76, 0x65, 0x69, 0x6c, 0x37, 0x3a, 0x4c, 0x31, 0x3a, 0x65, 0x6e, 0x74, 0x72, 0x6f, 0x70, 0x79, 0x2d, 0x66, 0x6f, 0x6c, 0x64, 0x3a, 0x76, 0x31]; // "veil7:L1:entropy-fold:v1"
/// Final pool uniformization (L1 mix step 3: XOR-folded pool → SHAKE256).
pub const ENTROPY_FINALIZE: [u8; 28] = [0x76, 0x65, 0x69, 0x6c, 0x37, 0x3a, 0x4c, 0x31, 0x3a, 0x65, 0x6e, 0x74, 0x72, 0x6f, 0x70, 0x79, 0x2d, 0x66, 0x69, 0x6e, 0x61, 0x6c, 0x69, 0x7a, 0x65, 0x3a, 0x76, 0x31]; // "veil7:L1:entropy-finalize:v1"
/// ML-KEM keygen sub-seed derivation.
pub const KEM_SEED: [u8; 20] = [0x76, 0x65, 0x69, 0x6c, 0x37, 0x3a, 0x4c, 0x32, 0x3a, 0x6b, 0x65, 0x6d, 0x2d, 0x73, 0x65, 0x65, 0x64, 0x3a, 0x76, 0x31]; // "veil7:L2:kem-seed:v1"
/// ML-DSA keygen sub-seed derivation.
pub const SIG_SEED: [u8; 20] = [0x76, 0x65, 0x69, 0x6c, 0x37, 0x3a, 0x4c, 0x32, 0x3a, 0x73, 0x69, 0x67, 0x2d, 0x73, 0x65, 0x65, 0x64, 0x3a, 0x76, 0x31]; // "veil7:L2:sig-seed:v1"
/// Deterministic ML-KEM encapsulation coins (L5 round trip).
pub const KEM_ENCAP_COINS: [u8; 27] = [0x76, 0x65, 0x69, 0x6c, 0x37, 0x3a, 0x4c, 0x32, 0x3a, 0x6b, 0x65, 0x6d, 0x2d, 0x65, 0x6e, 0x63, 0x61, 0x70, 0x2d, 0x63, 0x6f, 0x69, 0x6e, 0x73, 0x3a, 0x76, 0x31]; // "veil7:L2:kem-encap-coins:v1"
/// L3 commitment to (identity, claim).
pub const COMMITMENT: [u8; 22] = [0x76, 0x65, 0x69, 0x6c, 0x37, 0x3a, 0x4c, 0x33, 0x3a, 0x63, 0x6f, 0x6d, 0x6d, 0x69, 0x74, 0x6d, 0x65, 0x6e, 0x74, 0x3a, 0x76, 0x31]; // "veil7:L3:commitment:v1"
/// L7 transcript hash.
pub const TRANSCRIPT: [u8; 22] = [0x76, 0x65, 0x69, 0x6c, 0x37, 0x3a, 0x4c, 0x37, 0x3a, 0x74, 0x72, 0x61, 0x6e, 0x73, 0x63, 0x72, 0x69, 0x70, 0x74, 0x3a, 0x76, 0x31]; // "veil7:L7:transcript:v1"

/// Initial protocol binding absorbed by `Transcript::new`.
pub const FS_PROTOCOL: [u8; 20] = [0x76, 0x65, 0x69, 0x6c, 0x37, 0x3a, 0x66, 0x73, 0x3a, 0x70, 0x72, 0x6f, 0x74, 0x6f, 0x63, 0x6f, 0x6c, 0x3a, 0x76, 0x31]; // "veil7:fs:protocol:v1"
/// Frames an `absorb` operation.
pub const FS_ABSORB: [u8; 18] = [0x76, 0x65, 0x69, 0x6c, 0x37, 0x3a, 0x66, 0x73, 0x3a, 0x61, 0x62, 0x73, 0x6f, 0x72, 0x62, 0x3a, 0x76, 0x31]; // "veil7:fs:absorb:v1"
/// Frames a `challenge` derivation.
pub const FS_CHALLENGE: [u8; 21] = [0x76, 0x65, 0x69, 0x6c, 0x37, 0x3a, 0x66, 0x73, 0x3a, 0x63, 0x68, 0x61, 0x6c, 0x6c, 0x65, 0x6e, 0x67, 0x65, 0x3a, 0x76, 0x31]; // "veil7:fs:challenge:v1"
/// Squeeze step that produces challenge bytes from the chained state.
pub const FS_SQUEEZE: [u8; 19] = [0x76, 0x65, 0x69, 0x6c, 0x37, 0x3a, 0x66, 0x73, 0x3a, 0x73, 0x71, 0x75, 0x65, 0x65, 0x7a, 0x65, 0x3a, 0x76, 0x31]; // "veil7:fs:squeeze:v1"
/// Folds an emitted challenge back into the state (so the next op differs).
pub const FS_POST_CHALLENGE: [u8; 26] = [0x76, 0x65, 0x69, 0x6c, 0x37, 0x3a, 0x66, 0x73, 0x3a, 0x70, 0x6f, 0x73, 0x74, 0x2d, 0x63, 0x68, 0x61, 0x6c, 0x6c, 0x65, 0x6e, 0x67, 0x65, 0x3a, 0x76, 0x31]; // "veil7:fs:post-challenge:v1"

/// Per-method whitening tags of the multi-source harvest.
pub const ENTROPY_SOURCE_OS_PRIMARY: [u8; 26] = [0x76, 0x65, 0x69, 0x6c, 0x37, 0x3a, 0x4c, 0x31, 0x3a, 0x73, 0x72, 0x63, 0x3a, 0x6f, 0x73, 0x2d, 0x70, 0x72, 0x69, 0x6d, 0x61, 0x72, 0x79, 0x3a, 0x76, 0x31]; // "veil7:L1:src:os-primary:v1"
pub const ENTROPY_SOURCE_OS_SECONDARY: [u8; 28] = [0x76, 0x65, 0x69, 0x6c, 0x37, 0x3a, 0x4c, 0x31, 0x3a, 0x73, 0x72, 0x63, 0x3a, 0x6f, 0x73, 0x2d, 0x73, 0x65, 0x63, 0x6f, 0x6e, 0x64, 0x61, 0x72, 0x79, 0x3a, 0x76, 0x31]; // "veil7:L1:src:os-secondary:v1"
pub const ENTROPY_SOURCE_WALL_CLOCK: [u8; 26] = [0x76, 0x65, 0x69, 0x6c, 0x37, 0x3a, 0x4c, 0x31, 0x3a, 0x73, 0x72, 0x63, 0x3a, 0x77, 0x61, 0x6c, 0x6c, 0x2d, 0x63, 0x6c, 0x6f, 0x63, 0x6b, 0x3a, 0x76, 0x31]; // "veil7:L1:src:wall-clock:v1"
pub const ENTROPY_SOURCE_STACK_ADDR: [u8; 26] = [0x76, 0x65, 0x69, 0x6c, 0x37, 0x3a, 0x4c, 0x31, 0x3a, 0x73, 0x72, 0x63, 0x3a, 0x73, 0x74, 0x61, 0x63, 0x6b, 0x2d, 0x61, 0x64, 0x64, 0x72, 0x3a, 0x76, 0x31]; // "veil7:L1:src:stack-addr:v1"
pub const ENTROPY_SOURCE_THREAD_ID: [u8; 25] = [0x76, 0x65, 0x69, 0x6c, 0x37, 0x3a, 0x4c, 0x31, 0x3a, 0x73, 0x72, 0x63, 0x3a, 0x74, 0x68, 0x72, 0x65, 0x61, 0x64, 0x2d, 0x69, 0x64, 0x3a, 0x76, 0x31]; // "veil7:L1:src:thread-id:v1"
pub const ENTROPY_SOURCE_HW_COUNTER: [u8; 26] = [0x76, 0x65, 0x69, 0x6c, 0x37, 0x3a, 0x4c, 0x31, 0x3a, 0x73, 0x72, 0x63, 0x3a, 0x68, 0x77, 0x2d, 0x63, 0x6f, 0x75, 0x6e, 0x74, 0x65, 0x72, 0x3a, 0x76, 0x31]; // "veil7:L1:src:hw-counter:v1"
pub const ENTROPY_SOURCE_PROCESS_ID: [u8; 26] = [0x76, 0x65, 0x69, 0x6c, 0x37, 0x3a, 0x4c, 0x31, 0x3a, 0x73, 0x72, 0x63, 0x3a, 0x70, 0x72, 0x6f, 0x63, 0x65, 0x73, 0x73, 0x2d, 0x69, 0x64, 0x3a, 0x76, 0x31]; // "veil7:L1:src:process-id:v1"
pub const ENTROPY_SOURCE_MEMORY_ALLOC: [u8; 28] = [0x76, 0x65, 0x69, 0x6c, 0x37, 0x3a, 0x4c, 0x31, 0x3a, 0x73, 0x72, 0x63, 0x3a, 0x6d, 0x65, 0x6d, 0x6f, 0x72, 0x79, 0x2d, 0x61, 0x6c, 0x6c, 0x6f, 0x63, 0x3a, 0x76, 0x31]; // "veil7:L1:src:memory-alloc:v1"
pub const ENTROPY_SOURCE_CPU_CACHE: [u8; 25] = [0x76, 0x65, 0x69, 0x6c, 0x37, 0x3a, 0x4c, 0x31, 0x3a, 0x73, 0x72, 0x63, 0x3a, 0x63, 0x70, 0x75, 0x2d, 0x63, 0x61, 0x63, 0x68, 0x65, 0x3a, 0x76, 0x31]; // "veil7:L1:src:cpu-cache:v1"
pub const ENTROPY_SOURCE_PAGE_FAULT: [u8; 26] = [0x76, 0x65, 0x69, 0x6c, 0x37, 0x3a, 0x4c, 0x31, 0x3a, 0x73, 0x72, 0x63, 0x3a, 0x70, 0x61, 0x67, 0x65, 0x2d, 0x66, 0x61, 0x75, 0x6c, 0x74, 0x3a, 0x76, 0x31]; // "veil7:L1:src:page-fault:v1"
pub const ENTROPY_SOURCE_INTERRUPT: [u8; 25] = [0x76, 0x65, 0x69, 0x6c, 0x37, 0x3a, 0x4c, 0x31, 0x3a, 0x73, 0x72, 0x63, 0x3a, 0x69, 0x6e, 0x74, 0x65, 0x72, 0x72, 0x75, 0x70, 0x74, 0x3a, 0x76, 0x31]; // "veil7:L1:src:interrupt:v1"
pub const ENTROPY_SOURCE_MEMORY_CONTENTION: [u8; 33] = [0x76, 0x65, 0x69, 0x6c, 0x37, 0x3a, 0x4c, 0x31, 0x3a, 0x73, 0x72, 0x63, 0x3a, 0x6d, 0x65, 0x6d, 0x6f, 0x72, 0x79, 0x2d, 0x63, 0x6f, 0x6e, 0x74, 0x65, 0x6e, 0x74, 0x69, 0x6f, 0x6e, 0x3a, 0x76, 0x31]; // "veil7:L1:src:memory-contention:v1"

/// Initial protocol binding for the chained SHAKE256 accumulator.
pub const CHAIN_HEAD: [u8; 19] = [0x76, 0x65, 0x69, 0x6c, 0x37, 0x3a, 0x63, 0x68, 0x61, 0x69, 0x6e, 0x3a, 0x68, 0x65, 0x61, 0x64, 0x3a, 0x76, 0x31]; // "veil7:chain:head:v1"
/// Per-step frame absorbed before each event in the chain.
pub const CHAIN_STEP: [u8; 19] = [0x76, 0x65, 0x69, 0x6c, 0x37, 0x3a, 0x63, 0x68, 0x61, 0x69, 0x6e, 0x3a, 0x73, 0x74, 0x65, 0x70, 0x3a, 0x76, 0x31]; // "veil7:chain:step:v1"

/// Initial binding of the batch transcript fold.
pub const BATCH_HEAD: [u8; 19] = [0x76, 0x65, 0x69, 0x6c, 0x37, 0x3a, 0x62, 0x61, 0x74, 0x63, 0x68, 0x3a, 0x68, 0x65, 0x61, 0x64, 0x3a, 0x76, 0x31]; // "veil7:batch:head:v1"
/// Per-verdict frame of the batch transcript fold.
pub const BATCH_STEP: [u8; 19] = [0x76, 0x65, 0x69, 0x6c, 0x37, 0x3a, 0x62, 0x61, 0x74, 0x63, 0x68, 0x3a, 0x73, 0x74, 0x65, 0x70, 0x3a, 0x76, 0x31]; // "veil7:batch:step:v1"

/// Lamport-style hash one-time relation: secret leaf derivation.
pub const LAMPORT_SECRET: [u8; 27] = [0x76, 0x65, 0x69, 0x6c, 0x37, 0x3a, 0x72, 0x65, 0x6c, 0x3a, 0x6c, 0x61, 0x6d, 0x70, 0x6f, 0x72, 0x74, 0x3a, 0x73, 0x65, 0x63, 0x72, 0x65, 0x74, 0x3a, 0x76, 0x31]; // "veil7:rel:lamport:secret:v1"
/// Lamport-style hash one-time relation: public node (= H(secret)).
pub const LAMPORT_PUBNODE: [u8; 28] = [0x76, 0x65, 0x69, 0x6c, 0x37, 0x3a, 0x72, 0x65, 0x6c, 0x3a, 0x6c, 0x61, 0x6d, 0x70, 0x6f, 0x72, 0x74, 0x3a, 0x70, 0x75, 0x62, 0x6e, 0x6f, 0x64, 0x65, 0x3a, 0x76, 0x31]; // "veil7:rel:lamport:pubnode:v1"
/// Merkle inclusion relation: leaf hashing.
pub const MERKLE_LEAF: [u8; 24] = [0x76, 0x65, 0x69, 0x6c, 0x37, 0x3a, 0x72, 0x65, 0x6c, 0x3a, 0x6d, 0x65, 0x72, 0x6b, 0x6c, 0x65, 0x3a, 0x6c, 0x65, 0x61, 0x66, 0x3a, 0x76, 0x31]; // "veil7:rel:merkle:leaf:v1"
/// Merkle inclusion relation: internal node hashing.
pub const MERKLE_NODE: [u8; 24] = [0x76, 0x65, 0x69, 0x6c, 0x37, 0x3a, 0x72, 0x65, 0x6c, 0x3a, 0x6d, 0x65, 0x72, 0x6b, 0x6c, 0x65, 0x3a, 0x6e, 0x6f, 0x64, 0x65, 0x3a, 0x76, 0x31]; // "veil7:rel:merkle:node:v1"

} // verus!
