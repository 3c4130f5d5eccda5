//! Searching and filtering by index, the way `iter().find` and `iter().filter` walk a slice.

use vstd::prelude::*;

verus! {

/// The first index below `n` where `p` holds, if any.
pub open spec fn first_where(n: int, p: spec_fn(int) -> bool) -> Option<int> {
    if exists|i: int| 0 <= i < n && #[trigger] p(i) {
        Some(choose|i: int| 0 <= i < n && #[trigger] p(i) && forall|j: int| 0 <= j < i ==> !#[trigger] p(j))
    } else {
        None
    }
}

/// `i` is the first index where `p` holds.
pub proof fn lemma_first_where_found(n: int, p: spec_fn(int) -> bool, i: int)
    requires
        0 <= i < n,
        p(i),
        forall|j: int| 0 <= j < i ==> !#[trigger] p(j),
    ensures
        first_where(n, p) == Some(i),
{
    assert(exists|k: int| 0 <= k < n && #[trigger] p(k));
    let k = choose|k: int| 0 <= k < n && #[trigger] p(k) && forall|j: int| 0 <= j < k ==> !#[trigger] p(j);
    assert(k == i) by {
        if k < i {
            assert(!p(k));
        } else if k > i {
            assert(!p(i));
        }
    }
}

/// `p` holds nowhere below `n`.
pub proof fn lemma_first_where_none(n: int, p: spec_fn(int) -> bool)
    requires
        forall|j: int| 0 <= j < n ==> !#[trigger] p(j),
    ensures
        first_where(n, p) is None,
{
}

/// The indices below `n` where `p` holds, in increasing order.
pub open spec fn indices_where(n: int, p: spec_fn(int) -> bool) -> Seq<int>
    decreases n,
{
    if n <= 0 {
        Seq::empty()
    } else {
        let rest = indices_where(n - 1, p);
        if p(n - 1) {
            rest.push(n - 1)
        } else {
            rest
        }
    }
}

/// The indices `v` are the sequence `s`.
pub open spec fn same_indices(v: Seq<usize>, s: Seq<int>) -> bool {
    &&& v.len() == s.len()
    &&& forall|k: int| 0 <= k < v.len() ==> v[k] as int == s[k]
}

/// Every index where `p` holds is below `n`, and they hold `p`.
pub proof fn lemma_indices_where_bounds(n: int, p: spec_fn(int) -> bool)
    ensures
        forall|k: int|
            0 <= k < indices_where(n, p).len() ==> 0 <= #[trigger] indices_where(n, p)[k] < n && p(
                indices_where(n, p)[k],
            ),
    decreases n,
{
    if n > 0 {
        lemma_indices_where_bounds(n - 1, p);
        let rest = indices_where(n - 1, p);
        assert forall|k: int| 0 <= k < indices_where(n, p).len() implies 0
            <= #[trigger] indices_where(n, p)[k] < n && p(indices_where(n, p)[k]) by {
            if k < rest.len() {
                assert(indices_where(n, p)[k] == rest[k]);
            }
        }
    }
}

/// Every index below `n` where `p` holds is among the indices found.
pub proof fn lemma_indices_where_complete(n: int, p: spec_fn(int) -> bool, x: int)
    requires
        0 <= x < n,
        p(x),
    ensures
        exists|k: int| 0 <= k < indices_where(n, p).len() && #[trigger] indices_where(n, p)[k] == x,
    decreases n,
{
    let all = indices_where(n, p);
    if x == n - 1 {
        assert(all[all.len() - 1] == x);
    } else {
        lemma_indices_where_complete(n - 1, p, x);
        let rest = indices_where(n - 1, p);
        let k = choose|k: int| 0 <= k < rest.len() && #[trigger] rest[k] == x;
        assert(all[k] == x);
    }
}

/// The indices found are in strictly increasing order, so no index is found twice.
pub proof fn lemma_indices_where_increasing(n: int, p: spec_fn(int) -> bool)
    ensures
        forall|a: int, b: int|
            0 <= a < b < indices_where(n, p).len() ==> #[trigger] indices_where(n, p)[a]
                < #[trigger] indices_where(n, p)[b],
    decreases n,
{
    if n > 0 {
        lemma_indices_where_increasing(n - 1, p);
        lemma_indices_where_bounds(n - 1, p);
        let rest = indices_where(n - 1, p);
        let all = indices_where(n, p);
        assert forall|a: int, b: int| 0 <= a < b < all.len() implies #[trigger] all[a] < #[trigger] all[b] by {
            assert(all[a] == rest[a]);
            if b < rest.len() {
                assert(all[b] == rest[b]);
            } else {
                assert(all[b] == n - 1);
            }
        }
    }
}

} // verus!
