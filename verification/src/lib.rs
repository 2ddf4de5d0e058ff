//! veil7 — a stateless, seven-layer post-quantum verification engine.
//!
//! Each call harvests entropy (L1), derives ephemeral ML-KEM-768 and
//! ML-DSA-65 keys (L2), commits to the claim under those keys (L3), signs
//! the commitment (L4), verifies the signature and a KEM round-trip (L5),
//! wipes every secret (L6), and emits one bit plus a transcript digest (L7).
//! Nothing survives the call but the verdict.
//!
//! The byte encodings, the MicroVM, the Fiat-Shamir transcript, the chain
//! accumulator, the mixing and validation rules and the pipeline carry
//! contracts that Verus checks. The primitives (SHAKE256, HKDF-SHA-256,
//! ML-KEM-768, ML-DSA-65, SLH-DSA, `subtle`'s constant-time choice, the OS
//! random source) sit behind small trusted wrappers whose contracts name
//! their results.

pub mod audit;
pub mod blind;
pub mod bytes;
pub mod chain;
pub mod codec;
pub mod commit_reveal;
pub mod common;
pub mod ct;
pub mod entropy_health;
pub mod entropy_sources;
pub mod execution;
pub mod hybrid;
pub mod interface;
pub mod kdf;
pub mod keccak_ct;
pub mod layers;
pub mod mlock_status;
pub mod osrand;
pub mod pipeline;
pub mod pq_backends;
pub mod xof;

pub use common::domain;
pub use common::VeilError;

pub use layers::l0_memlock;
pub use layers::l1_entropy;
pub use layers::l2_keygen;
pub use layers::l3_commit;
pub use layers::l4_prove;
pub use layers::l5_verify;
pub use layers::l6_zeroise;
pub use layers::l7_emit;

pub use chain::ChainState;
pub use chain::{chain_root, chain_verify};
pub use entropy_sources::{
    hw_counter, os_csprng_primary, os_csprng_secondary, stack_addr, thread_id, wall_clock, EntropySource,
};
pub use l1_entropy::Seed;
pub use layers::l7_emit::Verdict;
pub use pipeline::Claim;
pub use pipeline::{verify_batch, verify_once, verify_once_with, verify_once_with_seed, verify_once_with_vm};
