//! The engine's single error type.

use vstd::prelude::*;

verus! {

/// Deliberately opaque: it never names *why* something failed, so the error
/// cannot serve as an oracle. One bit of failure to the outside world.
#[derive(Debug, PartialEq, Eq, Structural, Clone, Copy)]
pub enum VeilError {
    /// Entropy source unavailable.
    Entropy,
    /// A cryptographic operation failed (keygen / sign / verify).
    Crypto,
}

} // verus!
