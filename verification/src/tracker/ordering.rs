//! Ordering cards by name, as `str`'s order compares names (code point by code point), ties kept
//! in their first order.

use vstd::prelude::*;
use crate::text::{chars_of, strings_view};

verus! {

/// Whether `a` comes before `b`: at the first place they differ `a` has the smaller character,
/// or `a` is a proper prefix of `b`.
pub open spec fn name_lt(a: Seq<char>, b: Seq<char>) -> bool
    decreases a.len(),
{
    if a.len() == 0 {
        b.len() > 0
    } else if b.len() == 0 {
        false
    } else if a[0] != b[0] {
        (a[0] as int) < (b[0] as int)
    } else {
        name_lt(a.drop_first(), b.drop_first())
    }
}

/// Of two names, exactly one comes first, unless they are the same.
pub proof fn lemma_name_trichotomy(a: Seq<char>, b: Seq<char>)
    ensures
        name_lt(a, b) || name_lt(b, a) || a == b,
        !(name_lt(a, b) && name_lt(b, a)),
        name_lt(a, b) ==> a != b,
    decreases a.len(),
{
    if a.len() > 0 && b.len() > 0 && a[0] == b[0] {
        lemma_name_trichotomy(a.drop_first(), b.drop_first());
        if a.drop_first() == b.drop_first() {
            assert(a =~= b) by {
                assert forall|i: int| 0 <= i < a.len() implies a[i] == b[i] by {
                    if i > 0 {
                        assert(a[i] == a.drop_first()[i - 1]);
                        assert(b[i] == b.drop_first()[i - 1]);
                    }
                }
            }
        }
    } else if a.len() == 0 && b.len() == 0 {
        assert(a =~= b);
    } else if a.len() > 0 && b.len() > 0 {
        assert((a[0] as int) != (b[0] as int));
    }
}

/// The order of names is transitive.
pub proof fn lemma_name_transitive(a: Seq<char>, b: Seq<char>, c: Seq<char>)
    requires
        name_lt(a, b),
        name_lt(b, c),
    ensures
        name_lt(a, c),
    decreases a.len(),
{
    if a.len() > 0 && b.len() > 0 && c.len() > 0 && a[0] == b[0] && b[0] == c[0] {
        lemma_name_transitive(a.drop_first(), b.drop_first(), c.drop_first());
    }
}

/// Past a common beginning of `k` characters, the order of two names is that of their rests.
proof fn lemma_name_lt_skip(a: Seq<char>, b: Seq<char>, k: int)
    requires
        0 <= k <= a.len(),
        k <= b.len(),
        forall|j: int| 0 <= j < k ==> a[j] == b[j],
    ensures
        name_lt(a, b) == name_lt(a.skip(k), b.skip(k)),
    decreases k,
{
    if k > 0 {
        assert forall|j: int| 0 <= j < k - 1 implies a.drop_first()[j] == b.drop_first()[j] by {
            assert(a[j + 1] == b[j + 1]);
        }
        lemma_name_lt_skip(a.drop_first(), b.drop_first(), k - 1);
        assert(a.drop_first().skip(k - 1) =~= a.skip(k));
        assert(b.drop_first().skip(k - 1) =~= b.skip(k));
    } else {
        assert(a.skip(0) =~= a);
        assert(b.skip(0) =~= b);
    }
}

/// Whether `a` comes before `b` by name.
pub fn name_less(a: &str, b: &str) -> (r: bool)
    ensures
        r == name_lt(a@, b@),
{
    let av = chars_of(a);
    let bv = chars_of(b);
    let mut k: usize = 0;
    while k < av.len() && k < bv.len() && av[k] == bv[k]
        invariant
            av@ == a@,
            bv@ == b@,
            k <= av@.len(),
            k <= bv@.len(),
            forall|j: int| 0 <= j < k ==> av@[j] == bv@[j],
        decreases av.len() - k,
    {
        k = k + 1;
    }
    proof {
        lemma_name_lt_skip(a@, b@, k as int);
    }
    if k < av.len() && k < bv.len() {
        assert(a@.skip(k as int)[0] == av@[k as int]);
        assert(b@.skip(k as int)[0] == bv@[k as int]);
        av[k] < bv[k]
    } else {
        k == av.len() && k < bv.len()
    }
}

/// Whether the item at `i` comes before the item at `j`: by name, then by place.
pub open spec fn key_lt(names: Seq<Seq<char>>, i: int, j: int) -> bool {
    name_lt(names[i], names[j]) || (names[i] == names[j] && i < j)
}

/// Whether `i` is one of the places in `order`.
pub open spec fn listed(order: Seq<int>, i: int) -> bool {
    exists|k: int| 0 <= k < order.len() && #[trigger] order[k] == i
}

/// Whether `i` is one of the indices in `order`.
pub open spec fn listed_index(order: Seq<usize>, i: int) -> bool {
    exists|k: int| 0 <= k < order.len() && #[trigger] order[k] == i
}

/// Whether `order` lists each place of `names` once, in the order of the names, ties kept in
/// their first order.
pub open spec fn is_name_order(names: Seq<Seq<char>>, order: Seq<int>) -> bool {
    &&& order.len() == names.len()
    &&& forall|k: int| 0 <= k < order.len() ==> 0 <= #[trigger] order[k] < names.len()
    &&& forall|i: int| 0 <= i < names.len() ==> #[trigger] listed(order, i)
    &&& forall|k: int, l: int| 0 <= k < l < order.len() ==> key_lt(names, #[trigger] order[k], #[trigger] order[l])
}

/// The places of a list of indices.
pub open spec fn places(v: Seq<usize>) -> Seq<int> {
    v.map_values(|x: usize| x as int)
}

proof fn lemma_key_asymmetric(names: Seq<Seq<char>>, i: int, j: int)
    ensures
        !(key_lt(names, i, j) && key_lt(names, j, i)),
        key_lt(names, i, j) ==> i != j,
{
    lemma_name_trichotomy(names[i], names[j]);
}

proof fn lemma_key_transitive(names: Seq<Seq<char>>, i: int, j: int, l: int)
    requires
        key_lt(names, i, j),
        key_lt(names, j, l),
    ensures
        key_lt(names, i, l),
{
    if name_lt(names[i], names[j]) && name_lt(names[j], names[l]) {
        lemma_name_transitive(names[i], names[j], names[l]);
    }
}

/// The order of a list by name is unique: two orders that both list each place once, in the
/// order of the names with ties in their first order, are the same.
pub proof fn lemma_name_order_unique(names: Seq<Seq<char>>, o1: Seq<int>, o2: Seq<int>)
    requires
        is_name_order(names, o1),
        is_name_order(names, o2),
    ensures
        o1 == o2,
{
    assert forall|k: int| 0 <= k < o1.len() implies o1[k] == o2[k] by {
        lemma_name_order_prefix(names, o1, o2, k);
    }
    assert(o1 =~= o2);
}

proof fn lemma_name_order_prefix(names: Seq<Seq<char>>, o1: Seq<int>, o2: Seq<int>, k: int)
    requires
        is_name_order(names, o1),
        is_name_order(names, o2),
        0 <= k < o1.len(),
    ensures
        forall|j: int| 0 <= j <= k ==> o1[j] == o2[j],
    decreases k,
{
    if k > 0 {
        lemma_name_order_prefix(names, o1, o2, k - 1);
    }
    let a = o1[k];
    let b = o2[k];
    if a != b {
        assert(0 <= b < names.len());
        assert(listed(o1, b));
        let l = choose|l: int| 0 <= l < o1.len() && #[trigger] o1[l] == b;
        assert(0 <= a < names.len());
        assert(listed(o2, a));
        let m = choose|m: int| 0 <= m < o2.len() && #[trigger] o2[m] == a;
        if l < k {
            assert(o1[l] == o2[l]);
            lemma_key_asymmetric(names, o2[l], o2[k]);
            assert(key_lt(names, o2[l], o2[k]));
        }
        if m < k {
            assert(o2[m] == o1[m]);
            lemma_key_asymmetric(names, o1[m], o1[k]);
            assert(key_lt(names, o1[m], o1[k]));
        }
        assert(l > k);
        assert(m > k);
        assert(key_lt(names, o1[k], o1[l]));
        assert(key_lt(names, o2[k], o2[m]));
        lemma_key_asymmetric(names, a, b);
    }
}

/// The places of `names` in the order of the names, ties in their first order (a stable sort).
pub fn sorted_order(names: &Vec<String>) -> (r: Vec<usize>)
    ensures
        is_name_order(strings_view(names@), places(r@)),
{
    let ghost nv = strings_view(names@);
    let mut order: Vec<usize> = Vec::new();
    let mut i: usize = 0;
    while i < names.len()
        invariant
            nv == strings_view(names@),
            i <= names@.len(),
            order@.len() == i,
            forall|k: int| 0 <= k < order@.len() ==> #[trigger] order@[k] < i,
            forall|j: int| 0 <= j < i ==> #[trigger] listed_index(order@, j),
            forall|k: int, l: int| 0 <= k < l < order@.len() ==> key_lt(nv, #[trigger] order@[k] as int, #[trigger] order@[l] as int),
        decreases names.len() - i,
    {
        let mut p: usize = 0;
        while p < order.len() && !name_less(names[i].as_str(), names[order[p]].as_str())
            invariant
                nv == strings_view(names@),
                i < names@.len(),
                p <= order@.len(),
                forall|k: int| 0 <= k < order@.len() ==> #[trigger] order@[k] < i,
                forall|q: int| 0 <= q < p ==> !name_lt(nv[i as int], nv[#[trigger] order@[q] as int]),
            decreases order.len() - p,
        {
            proof {
                assert(nv[i as int] == names@[i as int]@);
                assert(nv[order@[p as int] as int] == names@[order@[p as int] as int]@);
            }
            p = p + 1;
        }
        proof {
            if p < order@.len() {
                assert(nv[i as int] == names@[i as int]@);
                assert(nv[order@[p as int] as int] == names@[order@[p as int] as int]@);
            }
        }
        let ghost old_order = order@;
        order.insert(p, i);
        proof {
            assert(order@ == old_order.subrange(0, p as int) + seq![i] + old_order.subrange(p as int, old_order.len() as int));
            assert forall|k: int| 0 <= k < order@.len() implies #[trigger] order@[k] < i + 1 by {
                if k < p {
                    assert(order@[k] == old_order[k]);
                } else if k > p {
                    assert(order@[k] == old_order[k - 1]);
                }
            }
            assert forall|j: int| 0 <= j < i + 1 implies #[trigger] listed_index(order@, j) by {
                if j == i {
                    assert(order@[p as int] == j);
                } else {
                    assert(listed_index(old_order, j));
                    let k0 = choose|k: int| 0 <= k < old_order.len() && #[trigger] old_order[k] == j;
                    if k0 < p {
                        assert(order@[k0] == j);
                    } else {
                        assert(order@[k0 + 1] == j);
                    }
                }
            }
            // every item before the new one comes first, every item after comes later
            assert forall|q: int| 0 <= q < p implies key_lt(nv, #[trigger] old_order[q] as int, i as int) by {
                lemma_name_trichotomy(nv[old_order[q] as int], nv[i as int]);
            }
            assert forall|q: int| p <= q < old_order.len() implies key_lt(nv, i as int, #[trigger] old_order[q] as int) by {
                assert(name_lt(nv[i as int], nv[old_order[p as int] as int]));
                if q > p {
                    assert(key_lt(nv, old_order[p as int] as int, old_order[q] as int));
                    lemma_key_transitive(nv, i as int, old_order[p as int] as int, old_order[q] as int);
                }
            }
            assert forall|k: int, l: int| 0 <= k < l < order@.len() implies key_lt(nv, #[trigger] order@[k] as int, #[trigger] order@[l] as int) by {
                if l < p {
                    assert(order@[k] == old_order[k] && order@[l] == old_order[l]);
                } else if l == p {
                    assert(order@[k] == old_order[k]);
                } else if k > p {
                    assert(order@[k] == old_order[k - 1] && order@[l] == old_order[l - 1]);
                } else if k == p {
                    assert(order@[l] == old_order[l - 1]);
                } else {
                    assert(order@[k] == old_order[k] && order@[l] == old_order[l - 1]);
                }
            }
        }
        i = i + 1;
    }
    proof {
        let pl = places(order@);
        assert forall|k: int| 0 <= k < pl.len() implies 0 <= #[trigger] pl[k] < nv.len() by {
            assert(pl[k] == order@[k] as int);
        }
        assert forall|j: int| 0 <= j < nv.len() implies #[trigger] listed(pl, j) by {
            assert(listed_index(order@, j));
            let k0 = choose|k: int| 0 <= k < order@.len() && #[trigger] order@[k] == j;
            assert(pl[k0] == j);
        }
        assert forall|k: int, l: int| 0 <= k < l < pl.len() implies key_lt(nv, #[trigger] pl[k], #[trigger] pl[l]) by {
            assert(pl[k] == order@[k] as int && pl[l] == order@[l] as int);
        }
    }
    order
}

} // verus!
