//! A binary min-heap of scheduler keys, ordered by due instant then
//! insertion order.

use vstd::prelude::*;

verus! {

broadcast use vstd::seq_lib::group_to_multiset_ensures;

/// One heap node: the due second, the insertion order, and the work token.
#[derive(Clone, Copy, Debug, PartialEq, Eq, Structural)]
pub struct QueueKey {
    pub due: i64,
    pub order: u64,
    pub token: u64,
}

/// `a` is strictly earlier than `b`: an earlier due second, or the same
/// second and an earlier insertion order.
pub open spec fn key_lt(a: QueueKey, b: QueueKey) -> bool {
    a.due < b.due || (a.due == b.due && a.order < b.order)
}

/// `a` comes no later than `b`.
pub open spec fn key_le(a: QueueKey, b: QueueKey) -> bool {
    a.due < b.due || (a.due == b.due && a.order <= b.order)
}

/// The parent slot of heap slot `i > 0`.
pub open spec fn parent(i: int) -> int {
    (i - 1) / 2
}

/// Every node comes no earlier than its parent.
pub open spec fn is_heap(s: Seq<QueueKey>) -> bool {
    forall|j: int| 0 < j < s.len() ==> key_le(#[trigger] s[parent(j)], s[j])
}

/// A heap except that slot `i` may be earlier than its parent; its
/// children still come no earlier than its parent.
pub open spec fn heap_except_up(s: Seq<QueueKey>, i: int) -> bool {
    &&& forall|j: int| 0 < j < s.len() && j != i ==> key_le(#[trigger] s[parent(j)], s[j])
    &&& forall|j: int|
        0 < j < s.len() && parent(j) == i && i > 0 ==> key_le(s[parent(i)], #[trigger] s[j])
}

/// A heap except that the children of slot `i` may be earlier than it;
/// they still come no earlier than its parent.
pub open spec fn heap_except_down(s: Seq<QueueKey>, i: int) -> bool {
    &&& forall|j: int| 0 < j < s.len() && parent(j) != i ==> key_le(#[trigger] s[parent(j)], s[j])
    &&& forall|j: int|
        0 < j < s.len() && parent(j) == i && i > 0 ==> key_le(s[parent(i)], #[trigger] s[j])
}

/// The root of a heap comes no later than every node.
pub proof fn lemma_root_is_first(s: Seq<QueueKey>, i: int)
    requires
        is_heap(s),
        0 <= i < s.len(),
    ensures
        key_le(s[0], s[i]),
    decreases i,
{
    if i > 0 {
        lemma_root_is_first(s, parent(i));
        assert(key_le(s[parent(i)], s[i]));
    }
}

/// Moves slot `i` up until the heap property holds.
fn sift_up(v: &mut Vec<QueueKey>, i: usize)
    requires
        i < old(v).len(),
        heap_except_up(old(v)@, i as int),
    ensures
        is_heap(final(v)@),
        final(v)@.to_multiset() == old(v)@.to_multiset(),
        final(v)@.len() == old(v)@.len(),
{
    let mut i = i;
    while i > 0
        invariant
            i < v.len(),
            v@.len() == old(v)@.len(),
            heap_except_up(v@, i as int),
            v@.to_multiset() == old(v)@.to_multiset(),
        decreases i,
    {
        let p = (i - 1) / 2;
        let child = v[i];
        let above = v[p];
        if !(child.due < above.due || (child.due == above.due && child.order < above.order)) {
            assert(is_heap(v@));
            return;
        }
        let ghost before = v@;
        v.set(p, child);
        v.set(i, above);
        proof {
            let s = v@;
            assert(s.to_multiset() == before.to_multiset()) by {
                let mid = before.update(p as int, child);
                assert(mid.to_multiset() == before.to_multiset().insert(child).remove(above));
                assert(s == mid.update(i as int, above));
                assert(s.to_multiset() == mid.to_multiset().insert(above).remove(child));
                assert(before.to_multiset().count(above) > 0) by {
                    assert(before[p as int] == above);
                }
                assert(before.to_multiset().insert(child).remove(above).insert(above).remove(child)
                    =~= before.to_multiset());
            }
            assert forall|j: int| 0 < j < s.len() && j != p implies key_le(
                #[trigger] s[parent(j)],
                s[j],
            ) by {
                if j == i {
                } else if parent(j) == i {
                    assert(key_le(before[parent(i as int)], before[j]));
                } else if parent(j) == p {
                    assert(key_le(before[p as int], before[j]));
                } else {
                    assert(s[parent(j)] == before[parent(j)]);
                }
            }
            assert forall|j: int| 0 < j < s.len() && parent(j) == p && p > 0 implies key_le(
                s[parent(p as int)],
                #[trigger] s[j],
            ) by {
                assert(key_le(before[parent(p as int)], before[p as int]));
                if j != i {
                    assert(key_le(before[p as int], before[j]));
                }
            }
        }
        i = p;
    }
}

/// Moves slot `i` down until the heap property holds.
fn sift_down(v: &mut Vec<QueueKey>, i: usize)
    requires
        i < old(v).len(),
        heap_except_down(old(v)@, i as int),
    ensures
        is_heap(final(v)@),
        final(v)@.to_multiset() == old(v)@.to_multiset(),
        final(v)@.len() == old(v)@.len(),
{
    let mut i = i;
    let len = v.len();
    loop
        invariant
            i < v.len(),
            len == v.len(),
            v@.len() == old(v)@.len(),
            heap_except_down(v@, i as int),
            v@.to_multiset() == old(v)@.to_multiset(),
        decreases len - i,
    {
        if i >= (len - 1) / 2 + (len - 1) % 2 || 2 * i + 1 >= len {
            assert forall|j: int| 0 < j < v@.len() implies key_le(#[trigger] v@[parent(j)], v@[j]) by {
                assert(parent(j) != i);
            }
            return;
        }
        let left = 2 * i + 1;
        let right = left + 1;
        let mut c = left;
        if right < len {
            let l = v[left];
            let r = v[right];
            if r.due < l.due || (r.due == l.due && r.order < l.order) {
                c = right;
            }
        }
        let child = v[c];
        let node = v[i];
        if !(child.due < node.due || (child.due == node.due && child.order < node.order)) {
            assert forall|j: int| 0 < j < v@.len() implies key_le(#[trigger] v@[parent(j)], v@[j]) by {
                if parent(j) == i {
                    if j == left as int {
                    } else {
                        assert(j == right as int);
                    }
                }
            }
            return;
        }
        let ghost before = v@;
        v.set(i, child);
        v.set(c, node);
        proof {
            let s = v@;
            assert(s.to_multiset() == before.to_multiset()) by {
                let mid = before.update(i as int, child);
                assert(mid.to_multiset() == before.to_multiset().insert(child).remove(node));
                assert(s == mid.update(c as int, node));
                assert(s.to_multiset() == mid.to_multiset().insert(node).remove(child));
                assert(before.to_multiset().count(node) > 0) by {
                    assert(before[i as int] == node);
                }
                assert(before.to_multiset().insert(child).remove(node).insert(node).remove(child)
                    =~= before.to_multiset());
            }
            assert forall|j: int| 0 < j < s.len() && parent(j) != c implies key_le(
                #[trigger] s[parent(j)],
                s[j],
            ) by {
                if j == c as int {
                } else if parent(j) == i {
                    assert(j == left as int || j == right as int);
                } else if j == i as int {
                    assert(key_le(before[parent(i as int)], before[c as int]));
                } else {
                    assert(s[parent(j)] == before[parent(j)]);
                }
            }
            assert forall|j: int| 0 < j < s.len() && parent(j) == c && c > 0 implies key_le(
                s[parent(c as int)],
                #[trigger] s[j],
            ) by {
                assert(key_le(before[c as int], before[j]));
            }
        }
        i = c;
    }
}

/// Adds a node to a heap.
pub fn heap_push(v: &mut Vec<QueueKey>, key: QueueKey)
    requires
        is_heap(old(v)@),
        old(v)@.len() < usize::MAX,
    ensures
        is_heap(final(v)@),
        final(v)@.to_multiset() == old(v)@.to_multiset().insert(key),
        final(v)@.len() == old(v)@.len() + 1,
{
    v.push(key);
    let last = v.len() - 1;
    sift_up(v, last);
}

/// Removes and returns the root of a non-empty heap: a node that comes no
/// later than every node.
pub fn heap_pop(v: &mut Vec<QueueKey>) -> (root: QueueKey)
    requires
        is_heap(old(v)@),
        old(v)@.len() > 0,
    ensures
        is_heap(final(v)@),
        root == old(v)@[0],
        forall|k: int| 0 <= k < old(v)@.len() ==> key_le(root, #[trigger] old(v)@[k]),
        final(v)@.to_multiset() == old(v)@.to_multiset().remove(root),
        final(v)@.len() == old(v)@.len() - 1,
{
    proof {
        assert forall|k: int| 0 <= k < old(v)@.len() implies key_le(old(v)@[0], #[trigger] old(v)@[k]) by {
            lemma_root_is_first(old(v)@, k);
        }
    }
    let ghost before = v@;
    let root = v.swap_remove(0);
    proof {
        let last = before.last();
        let upd = before.update(0, last);
        assert(v@ == upd.drop_last());
        assert(upd.drop_last() =~= upd.remove(upd.len() - 1));
        assert(upd.to_multiset() == before.to_multiset().insert(last).remove(root));
        assert(v@.to_multiset() == upd.to_multiset().remove(last));
        assert(before.to_multiset().count(root) > 0) by {
            assert(before[0] == root);
        }
        assert(before.to_multiset().insert(last).remove(root).remove(last)
            =~= before.to_multiset().remove(root));
    }
    if v.len() > 0 {
        proof {
            let s = v@;
            assert forall|j: int| 0 < j < s.len() && parent(j) != 0 implies key_le(
                #[trigger] s[parent(j)],
                s[j],
            ) by {
                assert(s[parent(j)] == before[parent(j)]);
                assert(s[j] == before[j]);
            }
        }
        sift_down(v, 0);
    }
    root
}

} // verus!
