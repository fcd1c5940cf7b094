//! Addition of two unsigned 64-bit integers.
//!
//! Overflow policy: the sum wraps silently, modulo 2^64. Every pair of inputs
//! is accepted and no call can panic.
use vstd::prelude::*;

verus! {

/// The largest value of the operand type.
pub const MAX: u64 = 0xffff_ffff_ffff_ffff;

/// The number of values of the operand type, 2^64.
pub open spec fn modulus() -> int {
    MAX as int + 1
}

/// The result of `add`: the mathematical sum, reduced modulo 2^64.
pub open spec fn wrapped_sum(left: u64, right: u64) -> int {
    (left as int + right as int) % modulus()
}

/// Adds `left` and `right`, wrapping around on overflow.
///
/// Where the sum fits in a `u64` the result is exactly `left + right`;
/// otherwise it is `left + right - 2^64`.
pub fn add(left: u64, right: u64) -> (r: u64)
    ensures
        r as int == wrapped_sum(left, right),
        left as int + right as int <= MAX as int ==> r as int == left as int + right as int,
        left as int + right as int > MAX as int ==> r as int == left as int + right as int - modulus(),
{
    left.wrapping_add(right)
}

/// Where the sum of two operands fits in a `u64`, adding them gives exactly
/// that sum, and swapping the operands gives the same result.
pub proof fn lemma_sum_exact_and_commutative(left: u64, right: u64)
    requires
        left as int + right as int <= MAX as int,
    ensures
        wrapped_sum(left, right) == left as int + right as int,
        wrapped_sum(left, right) == wrapped_sum(right, left),
{
}

/// Zero is a right identity: adding zero to any operand gives it back.
pub proof fn lemma_zero_right_identity(x: u64)
    ensures
        wrapped_sum(x, 0) == x as int,
{
}

} // verus!
