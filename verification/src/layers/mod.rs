//! The seven verification layers (plus L0, the memory primitive).

pub mod l0_memlock;
pub mod l1_entropy;
pub mod l2_keygen;
pub mod l3_commit;
pub mod l4_prove;
pub mod l5_verify;
pub mod l6_zeroise;
pub mod l7_emit;
