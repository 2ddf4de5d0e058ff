//! The OS randomness boundary: `getrandom`.

use vstd::prelude::*;

verus! {

/// `getrandom::getrandom` into a fresh `n`-byte buffer. `None` when the OS
/// source reports an error. The bytes themselves are unpredictable: nothing
/// is stated of them beyond their number.
#[verifier::external_body]
pub(crate) fn os_random(n: usize) -> (r: Option<Vec<u8>>)
    ensures
        r matches Some(v) ==> v@.len() == n,
{
    let mut buf = vec![0u8; n];
    match getrandom::getrandom(&mut buf) {
        Ok(()) => Some(buf),
        Err(_) => None,
    }
}

} // verus!
