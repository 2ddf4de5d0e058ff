//! Post-quantum primitive backends.
//!
//! * `libcrux_backend` — ML-KEM-768 and ML-DSA-65 from the libcrux crates.
//! * `slh_dsa` — SLH-DSA-SHAKE-128f (FIPS 205) from the `slh-dsa` crate.
//! * `fn_dsa` — the FN-DSA (FIPS 206 draft) surface, failing closed until a
//!   backend is integrated.

pub mod fn_dsa;
pub mod libcrux_backend;
pub mod slh_dsa;
