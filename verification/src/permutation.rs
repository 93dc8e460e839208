//! Specification-level machinery for finite permutations: occurrence
//! counting, the equivalence between "every value occurs" and "no value
//! repeats" for a sequence of n values drawn from [0, n), sums, and
//! inversion counting (the basis of permutation parity).
use vstd::prelude::*;

verus! {

/// Every entry of `s` lies in the half-open interval [0, n).
pub open spec fn in_range(s: Seq<int>, n: int) -> bool {
    forall|i: int| 0 <= i < s.len() ==> 0 <= #[trigger] s[i] < n
}

/// No two entries of `s` are equal.
pub open spec fn distinct(s: Seq<int>) -> bool {
    forall|i: int, j: int| 0 <= i < j < s.len() ==> s[i] != s[j]
}

/// Every value in [0, n) occurs somewhere in `s`.
pub open spec fn complete(s: Seq<int>, n: int) -> bool {
    forall|v: int| 0 <= v < n ==> #[trigger] s.contains(v)
}

/// `s` lists each value of [0, n) exactly once: it is a permutation of
/// 0, 1, ..., n-1.
pub open spec fn is_permutation(s: Seq<int>, n: int) -> bool {
    s.len() == n && in_range(s, n) && distinct(s)
}

/// Number of occurrences of `v` in `s`.
pub open spec fn count_val(s: Seq<int>, v: int) -> int
    decreases s.len(),
{
    if s.len() == 0 {
        0
    } else {
        count_val(s.drop_last(), v) + if s.last() == v {
            1int
        } else {
            0int
        }
    }
}

/// Sum of the occurrence counts of all values in [0, n).
pub open spec fn sum_counts(s: Seq<int>, n: int) -> int
    decreases n,
{
    if n <= 0 {
        0
    } else {
        sum_counts(s, n - 1) + count_val(s, n - 1)
    }
}

pub proof fn lemma_count_nonneg(s: Seq<int>, v: int)
    ensures
        count_val(s, v) >= 0,
    decreases s.len(),
{
    if s.len() > 0 {
        lemma_count_nonneg(s.drop_last(), v);
    }
}

proof fn lemma_sum_counts_empty(s: Seq<int>, n: int)
    requires
        s.len() == 0,
    ensures
        sum_counts(s, n) == 0,
    decreases n,
{
    if n > 0 {
        lemma_sum_counts_empty(s, n - 1);
    }
}

proof fn lemma_sum_counts_drop(s: Seq<int>, n: int)
    requires
        s.len() > 0,
    ensures
        sum_counts(s, n) == sum_counts(s.drop_last(), n) + if 0 <= s.last() < n {
            1int
        } else {
            0int
        },
    decreases n,
{
    if n > 0 {
        lemma_sum_counts_drop(s, n - 1);
    }
}

/// When every entry is in range, the counts of the n values partition the
/// sequence, so they add up to its length.
pub proof fn lemma_sum_counts_len(s: Seq<int>, n: int)
    requires
        n >= 0,
        in_range(s, n),
    ensures
        sum_counts(s, n) == s.len(),
    decreases s.len(),
{
    if s.len() == 0 {
        lemma_sum_counts_empty(s, n);
    } else {
        assert(in_range(s.drop_last(), n));
        lemma_sum_counts_len(s.drop_last(), n);
        lemma_sum_counts_drop(s, n);
        assert(0 <= s[s.len() - 1] < n);
    }
}

pub proof fn lemma_count_contains(s: Seq<int>, v: int)
    requires
        s.contains(v),
    ensures
        count_val(s, v) >= 1,
    decreases s.len(),
{
    lemma_count_nonneg(s.drop_last(), v);
    let i = choose|i: int| 0 <= i < s.len() && s[i] == v;
    if i < s.len() - 1 {
        assert(s.drop_last()[i] == v);
        assert(s.drop_last().contains(v));
        lemma_count_contains(s.drop_last(), v);
    }
}

pub proof fn lemma_count_dup(s: Seq<int>, v: int, i: int, j: int)
    requires
        0 <= i < j < s.len(),
        s[i] == v,
        s[j] == v,
    ensures
        count_val(s, v) >= 2,
    decreases s.len(),
{
    if j == s.len() - 1 {
        assert(s.drop_last()[i] == v);
        assert(s.drop_last().contains(v));
        lemma_count_contains(s.drop_last(), v);
    } else {
        assert(s.drop_last()[i] == v && s.drop_last()[j] == v);
        lemma_count_dup(s.drop_last(), v, i, j);
    }
}

pub proof fn lemma_count_absent(s: Seq<int>, v: int)
    requires
        !s.contains(v),
    ensures
        count_val(s, v) == 0,
    decreases s.len(),
{
    if s.len() > 0 {
        assert(forall|i: int| 0 <= i < s.len() - 1 ==> s.drop_last()[i] == s[i]);
        assert(!s.drop_last().contains(v));
        lemma_count_absent(s.drop_last(), v);
        assert(s[s.len() - 1] != v);
    }
}

pub proof fn lemma_count_distinct(s: Seq<int>, v: int)
    requires
        distinct(s),
    ensures
        count_val(s, v) <= 1,
    decreases s.len(),
{
    if s.len() > 0 {
        assert(distinct(s.drop_last()));
        lemma_count_distinct(s.drop_last(), v);
        if s.last() == v {
            assert(forall|i: int| 0 <= i < s.len() - 1 ==> s.drop_last()[i] != v);
            assert(!s.drop_last().contains(v));
            lemma_count_absent(s.drop_last(), v);
        }
    }
}

proof fn lemma_sum_counts_lower(s: Seq<int>, n: int)
    requires
        n >= 0,
        forall|v: int| 0 <= v < n ==> #[trigger] count_val(s, v) >= 1,
    ensures
        sum_counts(s, n) >= n,
    decreases n,
{
    if n > 0 {
        lemma_sum_counts_lower(s, n - 1);
    }
}

proof fn lemma_sum_counts_lower_dup(s: Seq<int>, n: int, v0: int)
    requires
        0 <= v0 < n,
        forall|v: int| 0 <= v < n ==> #[trigger] count_val(s, v) >= 1,
        count_val(s, v0) >= 2,
    ensures
        sum_counts(s, n) >= n + 1,
    decreases n,
{
    if v0 == n - 1 {
        lemma_sum_counts_lower(s, n - 1);
    } else {
        lemma_sum_counts_lower_dup(s, n - 1, v0);
    }
}

proof fn lemma_sum_counts_upper_missing(s: Seq<int>, n: int, v0: int)
    requires
        0 <= v0 < n,
        forall|v: int| #[trigger] count_val(s, v) <= 1,
        count_val(s, v0) == 0,
    ensures
        sum_counts(s, n) <= n - 1,
    decreases n,
{
    if v0 == n - 1 {
        lemma_sum_counts_upper(s, n - 1);
    } else {
        lemma_sum_counts_upper_missing(s, n - 1, v0);
    }
}

proof fn lemma_sum_counts_upper(s: Seq<int>, n: int)
    requires
        n >= 0,
        forall|v: int| #[trigger] count_val(s, v) <= 1,
    ensures
        sum_counts(s, n) <= n,
    decreases n,
{
    if n > 0 {
        lemma_sum_counts_upper(s, n - 1);
    }
}

/// For a sequence of exactly n in-range values, surjectivity onto [0, n)
/// and injectivity coincide: each implies the other by counting.
pub proof fn lemma_complete_iff_distinct(s: Seq<int>, n: int)
    requires
        s.len() == n,
        in_range(s, n),
    ensures
        complete(s, n) <==> distinct(s),
{
    lemma_sum_counts_len(s, n);
    if complete(s, n) {
        assert forall|v: int| 0 <= v < n implies #[trigger] count_val(s, v) >= 1 by {
            lemma_count_contains(s, v);
        }
        assert forall|i: int, j: int| 0 <= i < j < s.len() implies s[i] != s[j] by {
            if s[i] == s[j] {
                assert(0 <= s[i] < n);
                lemma_count_dup(s, s[i], i, j);
                lemma_sum_counts_lower_dup(s, n, s[i]);
            }
        }
    }
    if distinct(s) {
        assert forall|v: int| #[trigger] count_val(s, v) <= 1 by {
            lemma_count_distinct(s, v);
        }
        assert forall|v: int| 0 <= v < n implies #[trigger] s.contains(v) by {
            if !s.contains(v) {
                lemma_count_absent(s, v);
                lemma_sum_counts_upper_missing(s, n, v);
            }
        }
    }
}

/// Sum of the entries of `s`.
pub open spec fn seq_sum(s: Seq<int>) -> int
    decreases s.len(),
{
    if s.len() == 0 {
        0
    } else {
        seq_sum(s.drop_last()) + s.last()
    }
}

pub proof fn lemma_seq_sum_8(s: Seq<int>)
    requires
        s.len() == 8,
    ensures
        seq_sum(s) == s[0] + s[1] + s[2] + s[3] + s[4] + s[5] + s[6] + s[7],
{
    reveal_with_fuel(seq_sum, 9);
}

pub proof fn lemma_seq_sum_12(s: Seq<int>)
    requires
        s.len() == 12,
    ensures
        seq_sum(s) == s[0] + s[1] + s[2] + s[3] + s[4] + s[5] + s[6] + s[7] + s[8] + s[9] + s[10]
            + s[11],
{
    reveal_with_fuel(seq_sum, 13);
}

/// 1 when the pair (a, b) is out of order, 0 otherwise.
pub open spec fn gt_ind(a: int, b: int) -> int {
    if a > b {
        1
    } else {
        0
    }
}

/// Number of positions k in [j, len) with s[i] > s[k].
pub open spec fn row_inversions(s: Seq<int>, i: int, j: int) -> int
    decreases s.len() - j,
{
    if 0 <= j < s.len() {
        gt_ind(s[i], s[j]) + row_inversions(s, i, j + 1)
    } else {
        0
    }
}

/// Inversions whose first position lies below `i`.
pub open spec fn inversions_upto(s: Seq<int>, i: int) -> int
    decreases i,
{
    if i <= 0 {
        0
    } else {
        inversions_upto(s, i - 1) + row_inversions(s, i - 1, i)
    }
}

/// Number of pairs i < j with s[i] > s[j].
pub open spec fn inversions(s: Seq<int>) -> int {
    inversions_upto(s, s.len() as int)
}

/// The inversion count of an 8-element sequence, written out pair by pair.
pub proof fn lemma_inversions_8(s: Seq<int>)
    requires
        s.len() == 8,
    ensures
        inversions(s) == gt_ind(s[0], s[1]) + gt_ind(s[0], s[2]) + gt_ind(s[0], s[3]) + gt_ind(s[0], s[4]) + gt_ind(s[0], s[5]) + gt_ind(s[0], s[6]) + gt_ind(s[0], s[7]) + gt_ind(s[1], s[2]) + gt_ind(s[1], s[3]) + gt_ind(s[1], s[4]) + gt_ind(s[1], s[5]) + gt_ind(s[1], s[6]) + gt_ind(s[1], s[7]) + gt_ind(s[2], s[3]) + gt_ind(s[2], s[4]) + gt_ind(s[2], s[5]) + gt_ind(s[2], s[6]) + gt_ind(s[2], s[7]) + gt_ind(s[3], s[4]) + gt_ind(s[3], s[5]) + gt_ind(s[3], s[6]) + gt_ind(s[3], s[7]) + gt_ind(s[4], s[5]) + gt_ind(s[4], s[6]) + gt_ind(s[4], s[7]) + gt_ind(s[5], s[6]) + gt_ind(s[5], s[7]) + gt_ind(s[6], s[7]),
{
    reveal_with_fuel(row_inversions, 10);
    reveal_with_fuel(inversions_upto, 10);
    assert(row_inversions(s, 0, 1) == gt_ind(s[0], s[1]) + gt_ind(s[0], s[2]) + gt_ind(s[0], s[3]) + gt_ind(s[0], s[4]) + gt_ind(s[0], s[5]) + gt_ind(s[0], s[6]) + gt_ind(s[0], s[7]));
    assert(row_inversions(s, 1, 2) == gt_ind(s[1], s[2]) + gt_ind(s[1], s[3]) + gt_ind(s[1], s[4]) + gt_ind(s[1], s[5]) + gt_ind(s[1], s[6]) + gt_ind(s[1], s[7]));
    assert(row_inversions(s, 2, 3) == gt_ind(s[2], s[3]) + gt_ind(s[2], s[4]) + gt_ind(s[2], s[5]) + gt_ind(s[2], s[6]) + gt_ind(s[2], s[7]));
    assert(row_inversions(s, 3, 4) == gt_ind(s[3], s[4]) + gt_ind(s[3], s[5]) + gt_ind(s[3], s[6]) + gt_ind(s[3], s[7]));
    assert(row_inversions(s, 4, 5) == gt_ind(s[4], s[5]) + gt_ind(s[4], s[6]) + gt_ind(s[4], s[7]));
    assert(row_inversions(s, 5, 6) == gt_ind(s[5], s[6]) + gt_ind(s[5], s[7]));
    assert(row_inversions(s, 6, 7) == gt_ind(s[6], s[7]));
    assert(row_inversions(s, 7, 8) == 0);
}

/// The inversion count of a 12-element sequence, written out pair by pair.
pub proof fn lemma_inversions_12(s: Seq<int>)
    requires
        s.len() == 12,
    ensures
        inversions(s) == gt_ind(s[0], s[1]) + gt_ind(s[0], s[2]) + gt_ind(s[0], s[3]) + gt_ind(s[0], s[4]) + gt_ind(s[0], s[5]) + gt_ind(s[0], s[6]) + gt_ind(s[0], s[7]) + gt_ind(s[0], s[8]) + gt_ind(s[0], s[9]) + gt_ind(s[0], s[10]) + gt_ind(s[0], s[11]) + gt_ind(s[1], s[2]) + gt_ind(s[1], s[3]) + gt_ind(s[1], s[4]) + gt_ind(s[1], s[5]) + gt_ind(s[1], s[6]) + gt_ind(s[1], s[7]) + gt_ind(s[1], s[8]) + gt_ind(s[1], s[9]) + gt_ind(s[1], s[10]) + gt_ind(s[1], s[11]) + gt_ind(s[2], s[3]) + gt_ind(s[2], s[4]) + gt_ind(s[2], s[5]) + gt_ind(s[2], s[6]) + gt_ind(s[2], s[7]) + gt_ind(s[2], s[8]) + gt_ind(s[2], s[9]) + gt_ind(s[2], s[10]) + gt_ind(s[2], s[11]) + gt_ind(s[3], s[4]) + gt_ind(s[3], s[5]) + gt_ind(s[3], s[6]) + gt_ind(s[3], s[7]) + gt_ind(s[3], s[8]) + gt_ind(s[3], s[9]) + gt_ind(s[3], s[10]) + gt_ind(s[3], s[11]) + gt_ind(s[4], s[5]) + gt_ind(s[4], s[6]) + gt_ind(s[4], s[7]) + gt_ind(s[4], s[8]) + gt_ind(s[4], s[9]) + gt_ind(s[4], s[10]) + gt_ind(s[4], s[11]) + gt_ind(s[5], s[6]) + gt_ind(s[5], s[7]) + gt_ind(s[5], s[8]) + gt_ind(s[5], s[9]) + gt_ind(s[5], s[10]) + gt_ind(s[5], s[11]) + gt_ind(s[6], s[7]) + gt_ind(s[6], s[8]) + gt_ind(s[6], s[9]) + gt_ind(s[6], s[10]) + gt_ind(s[6], s[11]) + gt_ind(s[7], s[8]) + gt_ind(s[7], s[9]) + gt_ind(s[7], s[10]) + gt_ind(s[7], s[11]) + gt_ind(s[8], s[9]) + gt_ind(s[8], s[10]) + gt_ind(s[8], s[11]) + gt_ind(s[9], s[10]) + gt_ind(s[9], s[11]) + gt_ind(s[10], s[11]),
{
    reveal_with_fuel(row_inversions, 14);
    reveal_with_fuel(inversions_upto, 14);
    assert(row_inversions(s, 0, 1) == gt_ind(s[0], s[1]) + gt_ind(s[0], s[2]) + gt_ind(s[0], s[3]) + gt_ind(s[0], s[4]) + gt_ind(s[0], s[5]) + gt_ind(s[0], s[6]) + gt_ind(s[0], s[7]) + gt_ind(s[0], s[8]) + gt_ind(s[0], s[9]) + gt_ind(s[0], s[10]) + gt_ind(s[0], s[11]));
    assert(row_inversions(s, 1, 2) == gt_ind(s[1], s[2]) + gt_ind(s[1], s[3]) + gt_ind(s[1], s[4]) + gt_ind(s[1], s[5]) + gt_ind(s[1], s[6]) + gt_ind(s[1], s[7]) + gt_ind(s[1], s[8]) + gt_ind(s[1], s[9]) + gt_ind(s[1], s[10]) + gt_ind(s[1], s[11]));
    assert(row_inversions(s, 2, 3) == gt_ind(s[2], s[3]) + gt_ind(s[2], s[4]) + gt_ind(s[2], s[5]) + gt_ind(s[2], s[6]) + gt_ind(s[2], s[7]) + gt_ind(s[2], s[8]) + gt_ind(s[2], s[9]) + gt_ind(s[2], s[10]) + gt_ind(s[2], s[11]));
    assert(row_inversions(s, 3, 4) == gt_ind(s[3], s[4]) + gt_ind(s[3], s[5]) + gt_ind(s[3], s[6]) + gt_ind(s[3], s[7]) + gt_ind(s[3], s[8]) + gt_ind(s[3], s[9]) + gt_ind(s[3], s[10]) + gt_ind(s[3], s[11]));
    assert(row_inversions(s, 4, 5) == gt_ind(s[4], s[5]) + gt_ind(s[4], s[6]) + gt_ind(s[4], s[7]) + gt_ind(s[4], s[8]) + gt_ind(s[4], s[9]) + gt_ind(s[4], s[10]) + gt_ind(s[4], s[11]));
    assert(row_inversions(s, 5, 6) == gt_ind(s[5], s[6]) + gt_ind(s[5], s[7]) + gt_ind(s[5], s[8]) + gt_ind(s[5], s[9]) + gt_ind(s[5], s[10]) + gt_ind(s[5], s[11]));
    assert(row_inversions(s, 6, 7) == gt_ind(s[6], s[7]) + gt_ind(s[6], s[8]) + gt_ind(s[6], s[9]) + gt_ind(s[6], s[10]) + gt_ind(s[6], s[11]));
    assert(row_inversions(s, 7, 8) == gt_ind(s[7], s[8]) + gt_ind(s[7], s[9]) + gt_ind(s[7], s[10]) + gt_ind(s[7], s[11]));
    assert(row_inversions(s, 8, 9) == gt_ind(s[8], s[9]) + gt_ind(s[8], s[10]) + gt_ind(s[8], s[11]));
    assert(row_inversions(s, 9, 10) == gt_ind(s[9], s[10]) + gt_ind(s[9], s[11]));
    assert(row_inversions(s, 10, 11) == gt_ind(s[10], s[11]));
    assert(row_inversions(s, 11, 12) == 0);
}

} // verus!
