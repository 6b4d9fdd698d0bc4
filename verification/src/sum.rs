//! Summation of 64-bit signed integers with wrap-around on overflow.

use vstd::prelude::*;
use vstd::wrapping::i64_specs::wrapping_add;
use crate::wrap::{lemma_wrap_add, lemma_wrap_in_range, lemma_wrapping_add_is_wrap, wrap_i64};

verus! {

/// The exact sum of the elements of `s`, as a mathematical integer.
pub open spec fn sum(s: Seq<i64>) -> int
    decreases s.len(),
{
    if s.len() == 0 {
        0
    } else {
        sum(s.drop_last()) + s.last()
    }
}

/// The sum of the elements of `s` modulo 2^64, read as a signed integer.
pub open spec fn wrapping_sum(s: Seq<i64>) -> i64 {
    wrap_i64(sum(s))
}

/// The wrap-around sum of no elements is 0, the identity of addition.
pub proof fn lemma_wrapping_sum_empty()
    ensures
        wrapping_sum(Seq::<i64>::empty()) == 0,
{
}

/// The wrap-around sum of a single element is that element.
pub proof fn lemma_wrapping_sum_singleton(x: i64)
    ensures
        wrapping_sum(seq![x]) == x,
{
    assert(seq![x].drop_last() =~= Seq::<i64>::empty());
    assert(sum(seq![x].drop_last()) == 0);
}

/// Appending one element adds it to the running total with wrap-around, so
/// the wrap-around sum is a left fold of wrapping addition from 0.
pub proof fn lemma_wrapping_sum_push(s: Seq<i64>, x: i64)
    ensures
        wrapping_sum(s.push(x)) == wrapping_add(wrapping_sum(s), x),
{
    assert(s.push(x).drop_last() =~= s);
    lemma_wrap_in_range(x as int);
    lemma_wrap_add(sum(s), x as int);
    lemma_wrapping_add_is_wrap(wrapping_sum(s), x);
}

/// The exact sum of a concatenation is the sum of the exact sums.
pub proof fn lemma_sum_concat(a: Seq<i64>, b: Seq<i64>)
    ensures
        sum(a + b) == sum(a) + sum(b),
    decreases b.len(),
{
    if b.len() == 0 {
        assert(a + b =~= a);
    } else {
        assert((a + b).drop_last() =~= a + b.drop_last());
        lemma_sum_concat(a, b.drop_last());
    }
}

/// The wrap-around sum of a concatenation is the wrap-around sum of the two
/// parts' wrap-around sums.
pub proof fn lemma_wrapping_sum_concat(a: Seq<i64>, b: Seq<i64>)
    ensures
        wrapping_sum(a + b) == wrap_i64(wrapping_sum(a) + wrapping_sum(b)),
        wrapping_sum(a + b) == wrapping_add(wrapping_sum(a), wrapping_sum(b)),
{
    lemma_sum_concat(a, b);
    lemma_wrap_add(sum(a), sum(b));
    lemma_wrapping_add_is_wrap(wrapping_sum(a), wrapping_sum(b));
}

/// Taking one element out of a sequence lowers the exact sum by that element.
pub proof fn lemma_sum_remove(s: Seq<i64>, i: int)
    requires
        0 <= i < s.len(),
    ensures
        sum(s) == sum(s.remove(i)) + s[i],
{
    let front = s.subrange(0, i);
    let back = s.subrange(i + 1, s.len() as int);
    assert(s =~= front.push(s[i]) + back);
    assert(front.push(s[i]).drop_last() =~= front);
    lemma_sum_concat(front.push(s[i]), back);
    lemma_sum_concat(front, back);
}

/// The exact sum depends only on which elements occur and how often, not on
/// their order.
pub proof fn lemma_sum_permutation(a: Seq<i64>, b: Seq<i64>)
    requires
        a.to_multiset() == b.to_multiset(),
    ensures
        sum(a) == sum(b),
    decreases a.len(),
{
    a.to_multiset_ensures();
    b.to_multiset_ensures();
    if a.len() > 0 {
        let last = a.len() - 1;
        let x = a[last];
        assert(a.contains(x));
        assert(b.to_multiset().count(x) > 0);
        let j = choose|j: int| 0 <= j < b.len() && b[j] == x;
        assert(a.remove(last) =~= a.drop_last());
        lemma_sum_permutation(a.drop_last(), b.remove(j));
        lemma_sum_remove(b, j);
    }
}

/// Permutation invariance: two sequences with the same elements, each as
/// often in one as in the other, have the same wrap-around sum.
pub proof fn lemma_wrapping_sum_permutation(a: Seq<i64>, b: Seq<i64>)
    requires
        a.to_multiset() == b.to_multiset(),
    ensures
        wrapping_sum(a) == wrapping_sum(b),
{
    lemma_sum_permutation(a, b);
}

/// Sums the elements of `input` from first to last, wrapping around on
/// overflow. An empty slice sums to 0.
pub fn accumulate(input: &[i64]) -> (total: i64)
    ensures
        total == wrapping_sum(input@),
        i64::MIN <= sum(input@) <= i64::MAX ==> total == sum(input@),
        input@.len() == 0 ==> total == 0,
{
    let mut total: i64 = 0;
    let mut i: usize = 0;
    while i < input.len()
        invariant
            i <= input.len(),
            total == wrapping_sum(input@.take(i as int)),
        decreases input.len() - i,
    {
        proof {
            assert(input@.take(i + 1) =~= input@.take(i as int).push(input@[i as int]));
            lemma_wrapping_sum_push(input@.take(i as int), input@[i as int]);
        }
        total = total.wrapping_add(input[i]);
        i += 1;
    }
    proof {
        assert(input@.take(i as int) =~= input@);
        if i64::MIN <= sum(input@) <= i64::MAX {
            lemma_wrap_in_range(sum(input@));
        }
    }
    total
}

} // verus!
