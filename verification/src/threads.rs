//! Summing a slice of integers in two halves.

use vstd::prelude::*;
use vstd::slice::{slice_subrange, slice_to_vec};

verus! {

/// The mathematical sum of a sequence of `i32`.
pub open spec fn seq_sum(s: Seq<i32>) -> int
    decreases s.len(),
{
    if s.len() == 0 {
        0
    } else {
        seq_sum(s.drop_last()) + s.last()
    }
}

/// Every running total of `s`, taken from the front, fits in an `i32`.
pub open spec fn prefix_sums_fit(s: Seq<i32>) -> bool {
    forall|i: int| 0 <= i <= s.len() ==> i32::MIN <= #[trigger] seq_sum(s.take(i)) <= i32::MAX
}

/// The sum of a concatenation is the sum of its parts.
pub proof fn lemma_sum_concat(a: Seq<i32>, b: Seq<i32>)
    ensures
        seq_sum(a + b) == seq_sum(a) + seq_sum(b),
    decreases b.len(),
{
    if b.len() == 0 {
        assert(a + b =~= a);
    } else {
        lemma_sum_concat(a, b.drop_last());
        assert((a + b).drop_last() =~= a + b.drop_last());
    }
}

/// Splitting a sequence anywhere and adding the sums of the two parts gives
/// the sum of the whole.
pub proof fn lemma_sum_split(s: Seq<i32>, k: int)
    requires
        0 <= k <= s.len(),
    ensures
        seq_sum(s.take(k)) + seq_sum(s.skip(k)) == seq_sum(s),
{
    lemma_sum_concat(s.take(k), s.skip(k));
    assert(s.take(k) + s.skip(k) =~= s);
}

/// Reordering does not change the sum: two sequences with the same values,
/// each as often, have the same sum.
pub proof fn lemma_sum_permutation(a: Seq<i32>, b: Seq<i32>)
    requires
        a.to_multiset() == b.to_multiset(),
    ensures
        seq_sum(a) == seq_sum(b),
    decreases a.len(),
{
    broadcast use vstd::seq_lib::group_to_multiset_ensures;

    if a.len() == 0 {
        assert(b.to_multiset().len() == 0);
        assert(b.len() == 0);
    } else {
        let x = a.last();
        let rest = a.drop_last();
        assert(rest.push(x) =~= a);
        assert(a.to_multiset() =~= rest.to_multiset().insert(x));
        assert(b.to_multiset().count(x) > 0);
        assert(b.contains(x));
        let j = choose|j: int| 0 <= j < b.len() && b[j] == x;
        let shorter = b.remove(j);
        assert(shorter.to_multiset() =~= b.to_multiset().remove(x));
        assert(rest.to_multiset().insert(x).remove(x) =~= rest.to_multiset());
        lemma_sum_permutation(rest, shorter);
        assert(seq_sum(a) == seq_sum(rest) + x);
        lemma_sum_split(b, j);
        let tail = b.skip(j + 1);
        assert(b.skip(j) =~= seq![x] + tail);
        lemma_sum_concat(seq![x], tail);
        assert(seq_sum(seq![x]) == x) by {
            assert(seq![x].drop_last() =~= Seq::<i32>::empty());
            assert(seq_sum(Seq::<i32>::empty()) == 0);
            assert(seq![x].last() == x);
        }
        assert(shorter =~= b.take(j) + tail);
        lemma_sum_concat(b.take(j), tail);
    }
}

/// Adds up the values of `v` from the front.
pub fn sub_sum(v: Vec<i32>) -> (total: i32)
    requires
        prefix_sums_fit(v@),
    ensures
        total == seq_sum(v@),
{
    let mut sum: i32 = 0;
    let mut i: usize = 0;
    while i < v.len()
        invariant
            i <= v.len(),
            prefix_sums_fit(v@),
            sum == seq_sum(v@.take(i as int)),
        decreases v.len() - i,
    {
        assert(v@.take(i as int + 1).drop_last() =~= v@.take(i as int));
        assert(seq_sum(v@.take(i as int + 1)) == seq_sum(v@.take(i as int)) + v@[i as int]);
        assert(i32::MIN <= seq_sum(v@.take(i as int + 1)) <= i32::MAX);
        sum = sum + v[i];
        i = i + 1;
    }
    assert(v@.take(v@.len() as int) =~= v@);
    sum
}

/// Adds up the values of `v` from the front as `sub_sum` does, or answers
/// `None` where a running total would leave the range of `i32`.
pub fn try_sub_sum(v: &Vec<i32>) -> (total: Option<i32>)
    ensures
        match total {
            Some(t) => prefix_sums_fit(v@) && t == seq_sum(v@),
            None => !prefix_sums_fit(v@),
        },
{
    let mut sum: i32 = 0;
    let mut i: usize = 0;
    while i < v.len()
        invariant
            i <= v.len(),
            sum == seq_sum(v@.take(i as int)),
            forall|j: int| 0 <= j <= i ==> i32::MIN <= #[trigger] seq_sum(v@.take(j)) <= i32::MAX,
        decreases v.len() - i,
    {
        assert(v@.take(i as int + 1).drop_last() =~= v@.take(i as int));
        assert(seq_sum(v@.take(i as int + 1)) == seq_sum(v@.take(i as int)) + v@[i as int]);
        match sum.checked_add(v[i]) {
            Some(next) => {
                sum = next;
            },
            None => {
                return None;
            },
        }
        i = i + 1;
    }
    assert(v@.take(v@.len() as int) =~= v@);
    Some(sum)
}

/// The two halves that `sum` adds up separately: the first `len / 2` values,
/// and the rest.
pub fn split_halves(slice: &[i32]) -> (halves: (Vec<i32>, Vec<i32>))
    ensures
        halves.0@ == slice@.take((slice@.len() / 2) as int),
        halves.1@ == slice@.skip((slice@.len() / 2) as int),
{
    let len = slice.len();
    let middle = len / 2;
    let first = slice_to_vec(slice_subrange(slice, 0, middle));
    let second = slice_to_vec(slice_subrange(slice, middle, len));
    assert(slice@.subrange(0, middle as int) =~= slice@.take(middle as int));
    assert(slice@.subrange(middle as int, len as int) =~= slice@.skip(middle as int));
    (first, second)
}

/// Whether `sum` can add up `s` without overflow: the running totals of each
/// half fit in an `i32`, and so does the total.
pub open spec fn halves_fit(s: Seq<i32>) -> bool {
    &&& prefix_sums_fit(s.take((s.len() / 2) as int))
    &&& prefix_sums_fit(s.skip((s.len() / 2) as int))
    &&& i32::MIN <= seq_sum(s) <= i32::MAX
}

/// Sums the two halves of `slice` separately and adds the two results.
pub fn sum(slice: &[i32]) -> (total: i32)
    requires
        halves_fit(slice@),
    ensures
        total == seq_sum(slice@),
{
    let (first, second) = split_halves(slice);
    proof {
        lemma_sum_split(slice@, (slice@.len() / 2) as int);
    }
    let sum1 = sub_sum(first);
    let sum2 = sub_sum(second);
    sum1 + sum2
}

} // verus!
