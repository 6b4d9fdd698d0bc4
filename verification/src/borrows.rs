//! A value taken by copy and a slice taken by shared borrow.

use vstd::prelude::*;
use crate::wrap::{lemma_wrapping_add_is_wrap, wrap_i64};

verus! {

/// The successor of `value` in 64-bit two's-complement arithmetic: the
/// largest value is followed by the smallest.
///
/// The argument is copied in: the function changes its own copy, and the
/// caller's binding is untouched. In the contract `value` is the number that
/// was handed in.
pub fn increment(mut value: i64) -> (next: i64)
    ensures
        next == wrap_i64(value + 1),
        value < i64::MAX ==> next == value + 1,
        value == i64::MAX ==> next == i64::MIN,
{
    proof {
        lemma_wrapping_add_is_wrap(value, 1);
    }
    value = value.wrapping_add(1);
    value
}

/// The number of bytes in `slice`.
///
/// The slice is only looked at: nothing is kept of it after the call.
pub fn consume_slice(slice: &[u8]) -> (count: usize)
    ensures
        count == slice@.len(),
{
    slice.len()
}

} // verus!
