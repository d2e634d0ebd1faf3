//! Sorted, duplicate-free sequences of module identifiers, used for the
//! visited set of the dependency resolver and for deterministic output.
use vstd::prelude::*;
use crate::ModuleId;

verus! {

/// A strictly increasing sequence: sorted by identifier order, no duplicates.
pub open spec fn sorted_strict(s: Seq<ModuleId>) -> bool {
    forall|i: int, j: int| 0 <= i < j < s.len() ==> s[i].value < s[j].value
}

pub proof fn lemma_sorted_strict_no_duplicates(s: Seq<ModuleId>)
    requires
        sorted_strict(s),
    ensures
        s.no_duplicates(),
{
}

/// Whether `x` occurs in `v`.
pub fn id_slice_contains(v: &Vec<ModuleId>, x: ModuleId) -> (r: bool)
    ensures
        r == v@.contains(x),
{
    let mut k: usize = 0;
    while k < v.len()
        invariant
            0 <= k <= v@.len(),
            forall|j: int| 0 <= j < k ==> v@[j] != x,
        decreases v@.len() - k,
    {
        if v[k].value == x.value {
            assert(v@[k as int] == x);
            return true;
        }
        k = k + 1;
    }
    false
}

/// Inserts `x` into the sorted sequence `v`, keeping it sorted.
pub fn insert_sorted(v: &mut Vec<ModuleId>, x: ModuleId)
    requires
        sorted_strict(old(v)@),
        !old(v)@.contains(x),
    ensures
        sorted_strict(final(v)@),
        final(v)@.len() == old(v)@.len() + 1,
        forall|y: ModuleId| final(v)@.contains(y) <==> old(v)@.contains(y) || y == x,
{
    let ghost v0 = v@;
    let mut i: usize = 0;
    while i < v.len() && v[i].value < x.value
        invariant
            0 <= i <= v@.len(),
            v@ == v0,
            forall|j: int| 0 <= j < i ==> v@[j].value < x.value,
        decreases v@.len() - i,
    {
        i = i + 1;
    }
    proof {
        if i < v0.len() {
            if v0[i as int].value == x.value {
                assert(v0[i as int] == x);
                assert(v0.contains(x));
                assert(false);
            }
        }
        // everything at or after i is larger than x
        assert forall|j: int| i <= j < v0.len() implies v0[j].value > x.value by {
            if j > i {
                assert(v0[i as int].value < v0[j].value);
            }
        }
    }
    v.insert(i, x);
    proof {
        assert(v@ == v0.insert(i as int, x));
        assert forall|p: int, q: int| 0 <= p < q < v@.len() implies v@[p].value < v@[q].value by {
            assert(v@[p] == if p < i { v0[p] } else if p == i { x } else { v0[p - 1] });
            assert(v@[q] == if q < i { v0[q] } else if q == i { x } else { v0[q - 1] });
        }
        assert forall|y: ModuleId| v@.contains(y) implies v0.contains(y) || y == x by {
            let k = choose|k: int| 0 <= k < v@.len() && v@[k] == y;
            if k < i {
                assert(v0[k] == y);
            } else if k == i {
                assert(y == x);
            } else {
                assert(v0[k - 1] == y);
            }
        }
        assert forall|y: ModuleId| v0.contains(y) || y == x implies v@.contains(y) by {
            if y == x {
                assert(v@[i as int] == y);
            } else {
                let k = choose|k: int| 0 <= k < v0.len() && v0[k] == y;
                if k < i {
                    assert(v@[k] == y);
                } else {
                    assert(v@[k + 1] == y);
                }
            }
        }
    }
}

/// Removing the head of a sequence keeps every other occurring element.
pub proof fn lemma_remove_head_contains(q: Seq<ModuleId>, y: ModuleId)
    requires
        q.len() > 0,
        q.contains(y),
        y != q[0],
    ensures
        q.remove(0).contains(y),
{
    let k = choose|k: int| 0 <= k < q.len() && q[k] == y;
    assert(q.remove(0)[k - 1] == y);
}

/// Every element of a head-removed sequence occurs in the whole one.
pub proof fn lemma_remove_head_subset(q: Seq<ModuleId>, y: ModuleId)
    requires
        q.len() > 0,
        q.remove(0).contains(y),
    ensures
        q.contains(y),
{
    let k = choose|k: int| 0 <= k < q.remove(0).len() && q.remove(0)[k] == y;
    assert(q[k + 1] == y);
}

/// Two sorted duplicate-free sequences with the same members are equal.
pub proof fn lemma_sorted_same_elements_equal(a: Seq<ModuleId>, b: Seq<ModuleId>)
    requires
        sorted_strict(a),
        sorted_strict(b),
        forall|x: ModuleId| a.contains(x) <==> b.contains(x),
    ensures
        a == b,
    decreases a.len(),
{
    if a.len() == 0 {
        if b.len() > 0 {
            assert(b.contains(b[0]));
            assert(a.contains(b[0]));
            assert(false);
        }
        assert(a =~= b);
    } else {
        assert(a.contains(a[0]));
        assert(b.contains(b[0]));
        let ka = choose|k: int| 0 <= k < a.len() && a[k] == b[0];
        let kb = choose|k: int| 0 <= k < b.len() && b[k] == a[0];
        assert(a[0].value <= a[ka].value);
        assert(b[0].value <= b[kb].value);
        assert(a[0] == b[0]);
        let ta = a.remove(0);
        let tb = b.remove(0);
        assert forall|x: ModuleId| ta.contains(x) implies tb.contains(x) by {
            lemma_remove_head_subset(a, x);
            let k = choose|k: int| 0 <= k < ta.len() && ta[k] == x;
            assert(a[k + 1] == x);
            assert(x.value > a[0].value);
            assert(x != b[0]);
            lemma_remove_head_contains(b, x);
        }
        assert forall|x: ModuleId| tb.contains(x) implies ta.contains(x) by {
            lemma_remove_head_subset(b, x);
            let k = choose|k: int| 0 <= k < tb.len() && tb[k] == x;
            assert(b[k + 1] == x);
            assert(x.value > b[0].value);
            assert(x != a[0]);
            lemma_remove_head_contains(a, x);
        }
        assert forall|i: int, j: int| 0 <= i < j < ta.len() implies ta[i].value < ta[j].value by {
            assert(ta[i] == a[i + 1]);
            assert(ta[j] == a[j + 1]);
        }
        assert forall|i: int, j: int| 0 <= i < j < tb.len() implies tb[i].value < tb[j].value by {
            assert(tb[i] == b[i + 1]);
            assert(tb[j] == b[j + 1]);
        }
        lemma_sorted_same_elements_equal(ta, tb);
        assert(a =~= seq![a[0]] + ta);
        assert(b =~= seq![b[0]] + tb);
        assert(a == b);
    }
}

} // verus!
