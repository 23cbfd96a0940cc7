//! The least `usize` absent from a finite collection of keys, the basis
//! of capture-avoiding fresh-name generation during read-back.

use vstd::prelude::*;

use vstd::set_lib::lemma_int_range;
use vstd::set_lib::lemma_len_subset;
use vstd::set_lib::set_int_range;

verus! {

/// Whether `r` is the minimum excluded value of `s`: absent from `s`,
/// while every smaller key is present.
pub open spec fn is_min_excluded(s: Seq<usize>, r: usize) -> bool {
    &&& !s.contains(r)
    &&& forall|k: usize| k < r ==> s.contains(k)
}

/// The minimum excluded value of `s`.
pub open spec fn spec_min_excluded(s: Seq<usize>) -> usize {
    choose|r: usize| is_min_excluded(s, r)
}

/// At most one value is the minimum excluded value of `s`.
pub proof fn lemma_min_excluded_unique(s: Seq<usize>, r1: usize, r2: usize)
    requires
        is_min_excluded(s, r1),
        is_min_excluded(s, r2),
    ensures
        r1 == r2,
{
    if r1 < r2 {
        assert(s.contains(r1));
    }
    if r2 < r1 {
        assert(s.contains(r2));
    }
}

/// Every collection of fewer keys than `usize` has values has a
/// minimum excluded value, so [`spec_min_excluded`] denotes one.
pub proof fn lemma_min_excluded_exists(s: Seq<usize>)
    requires
        s.len() < usize::MAX,
    ensures
        is_min_excluded(s, spec_min_excluded(s)),
{
    lemma_min_excluded_exists_from(s, 0);
    let r = choose|r: usize| is_min_excluded(s, r);
    assert(is_min_excluded(s, r));
}

/// Searching upward from `k`, with every key below `k` present, finds
/// a minimum excluded value.
proof fn lemma_min_excluded_exists_from(s: Seq<usize>, k: usize)
    requires
        s.len() < usize::MAX,
        k <= s.len(),
        forall|j: usize| j < k ==> s.contains(j),
    ensures
        exists|r: usize| is_min_excluded(s, r),
    decreases s.len() - k,
{
    if !s.contains(k) {
        assert(is_min_excluded(s, k));
    } else if k == s.len() {
        lemma_all_below_len_excludes_len(s, k);
    } else {
        lemma_min_excluded_exists_from(s, (k + 1) as usize);
    }
}

/// A sequence of length `n` holding every key below `n` has no room for
/// `n` itself.
proof fn lemma_all_below_len_excludes_len(s: Seq<usize>, n: usize)
    requires
        s.len() == n,
        forall|k: usize| k < n ==> s.contains(k),
    ensures
        !s.contains(n),
{
    broadcast use vstd::seq_lib::seq_to_set_is_finite;

    if s.contains(n) {
        let si = s.map_values(|v: usize| v as int);
        assert forall|k: int| 0 <= k < n + 1 implies si.to_set().contains(k) by {
            if k < n {
                assert(s.contains(k as usize));
                let j = choose|j: int| 0 <= j < s.len() && s[j] == k as usize;
                assert(si[j] == k);
                assert(si.contains(k));
            } else {
                let j = choose|j: int| 0 <= j < s.len() && s[j] == n;
                assert(si[j] == n as int);
                assert(si.contains(k));
            }
        }
        assert(set_int_range(0, n + 1) <= si.to_set());
        lemma_int_range(0, n + 1);
        si.lemma_cardinality_of_set();
        lemma_len_subset(set_int_range(0, n + 1), si.to_set());
        assert(false);
    }
}

/// Whether `x` occurs in `values`.
fn contains_key(values: &Vec<usize>, x: usize) -> (r: bool)
    ensures
        r == values@.contains(x),
{
    let mut i: usize = 0;
    while i < values.len()
        invariant
            i <= values@.len(),
            forall|j: int| 0 <= j < i ==> values@[j] != x,
        decreases values@.len() - i,
    {
        if values[i] == x {
            assert(values@[i as int] == x);
            return true;
        }
        i += 1;
    }
    false
}

/// Returns the least `usize` that does not occur in `values`.
///
/// Runs in `O(n^2)` time for `n` keys, which suffices for the small
/// name collections fresh-name generation draws on.
pub fn min_excluded(values: &Vec<usize>) -> (r: usize)
    ensures
        is_min_excluded(values@, r),
        r == spec_min_excluded(values@),
        r <= values@.len(),
{
    let n = values.len();
    let mut r: usize = 0;
    while r < n
        invariant
            r <= n,
            n == values@.len(),
            forall|k: usize| k < r ==> values@.contains(k),
        decreases n - r,
    {
        if !contains_key(values, r) {
            proof {
                assert(is_min_excluded(values@, r));
                assert(exists|x: usize| is_min_excluded(values@, x));
                lemma_min_excluded_unique(values@, r, spec_min_excluded(values@));
            }
            return r;
        }
        r += 1;
    }
    proof {
        lemma_all_below_len_excludes_len(values@, n);
        assert(is_min_excluded(values@, n));
        assert(exists|x: usize| is_min_excluded(values@, x));
        lemma_min_excluded_unique(values@, n, spec_min_excluded(values@));
    }
    n
}

} // verus!
