//! The constant-time boundary: `subtle::Choice` and `ConstantTimeEq`.

use subtle::ConstantTimeEq;
use vstd::prelude::*;

verus! {

/// `subtle::Choice`, carried opaquely through verified code.
#[verifier::external_type_specification]
#[verifier::external_body]
pub struct ExChoice(subtle::Choice);

/// The bit a `Choice` holds, as `Choice::unwrap_u8` returns it.
pub uninterp spec fn choice_bit(c: subtle::Choice) -> u8;

/// `Choice::from(b)` for `b` in `{0, 1}` (other values trip subtle's debug assertion).
#[verifier::external_body]
pub(crate) fn choice_from_bit(b: u8) -> (c: subtle::Choice)
    requires
        b <= 1,
    ensures
        choice_bit(c) == b,
{
    subtle::Choice::from(b)
}

/// `Choice::unwrap_u8`: the bit the choice holds.
#[verifier::external_body]
pub(crate) fn choice_unwrap(c: &subtle::Choice) -> (b: u8)
    ensures
        b == choice_bit(*c),
{
    c.unwrap_u8()
}

/// `Choice & Choice`: the bitwise AND of the two bits.
#[verifier::external_body]
pub(crate) fn choice_and(a: subtle::Choice, b: subtle::Choice) -> (c: subtle::Choice)
    ensures
        choice_bit(c) == (choice_bit(a) & choice_bit(b)),
{
    a & b
}

/// `<[u8] as ConstantTimeEq>::ct_eq`: 1 exactly when the slices have the same
/// length and the same bytes, 0 otherwise.
#[verifier::external_body]
pub(crate) fn ct_eq_bytes(a: &[u8], b: &[u8]) -> (c: subtle::Choice)
    ensures
        choice_bit(c) == (if a@ == b@ { 1u8 } else { 0u8 }),
{
    a.ct_eq(b)
}

/// A choice that holds 0 or 1.
pub open spec fn choice_ok(c: subtle::Choice) -> bool {
    choice_bit(c) <= 1
}

/// Constant-time AND of two well-formed choices stays well formed.
pub fn choice_and_bits(a: subtle::Choice, b: subtle::Choice) -> (c: subtle::Choice)
    requires
        choice_ok(a),
        choice_ok(b),
    ensures
        choice_ok(c),
        choice_bit(c) == (if choice_bit(a) == 1 && choice_bit(b) == 1 { 1u8 } else { 0u8 }),
{
    let ghost x = choice_bit(a);
    let ghost y = choice_bit(b);
    let c = choice_and(a, b);
    assert((x & y) == (if x == 1 && y == 1 { 1u8 } else { 0u8 })) by (bit_vector)
        requires x <= 1, y <= 1;
    c
}

} // verus!
