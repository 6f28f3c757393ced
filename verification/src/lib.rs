//! A 32-bit integer adder with two's-complement wraparound semantics.
//!
//! The companion note-frequency helper (equal-temperament pitch from a
//! semitone offset) is floating-point arithmetic and lives in the
//! unverified application crate.

use vstd::prelude::*;

verus! {

/// The sum of `a` and `b` reduced to the `i32` range with two's-complement
/// wraparound: a sum that leaves the range is moved back into it by 2^32.
pub open spec fn wrapped_sum(a: int, b: int) -> int {
    if a + b > i32::MAX {
        a + b - 0x1_0000_0000
    } else if a + b < i32::MIN {
        a + b + 0x1_0000_0000
    } else {
        a + b
    }
}

/// Adds two signed 32-bit integers.
///
/// Overflow is handled by two's-complement wraparound (the sum is reduced
/// modulo 2^32), so the function never fails. Whenever the exact sum is
/// representable as an `i32`, it is returned unchanged.
pub fn add(a: i32, b: i32) -> (r: i32)
    ensures
        r == wrapped_sum(a as int, b as int),
        i32::MIN <= a + b <= i32::MAX ==> r == a + b,
{
    a.wrapping_add(b)
}

/// Wraparound addition is commutative: for all 32-bit operands, swapping
/// them leaves the wrapped sum unchanged.
pub proof fn lemma_add_commutative(a: i32, b: i32)
    ensures
        wrapped_sum(a as int, b as int) == wrapped_sum(b as int, a as int),
{
}

} // verus!
