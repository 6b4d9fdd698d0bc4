//! The two's-complement reading of a mathematical integer.

use vstd::prelude::*;
use vstd::wrapping::i64_specs::wrapping_add;

verus! {

/// The number of values of a 64-bit integer: 2^64.
pub open spec fn modulus() -> int {
    0x1_0000_0000_0000_0000
}

/// The 64-bit signed integer that is congruent to `x` modulo 2^64.
///
/// This is what a 64-bit two's-complement register holds after the exact
/// result `x` has been stored in it.
pub open spec fn wrap_i64(x: int) -> i64 {
    let r = x % modulus();
    if r > i64::MAX {
        (r - modulus()) as i64
    } else {
        r as i64
    }
}

/// A value that fits in 64 signed bits is its own two's-complement reading.
pub proof fn lemma_wrap_in_range(x: int)
    requires
        i64::MIN <= x <= i64::MAX,
    ensures
        wrap_i64(x) == x,
{
}

/// Reading the operands before adding them does not change the reading of
/// the sum: wrap-around addition is addition modulo 2^64.
pub proof fn lemma_wrap_add(x: int, y: int)
    ensures
        wrap_i64(wrap_i64(x) + wrap_i64(y)) == wrap_i64(x + y),
{
}

/// The wrapping addition of the machine is the reading of the exact sum.
pub proof fn lemma_wrapping_add_is_wrap(a: i64, b: i64)
    ensures
        wrapping_add(a, b) == wrap_i64(a + b),
{
}

} // verus!
