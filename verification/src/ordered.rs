//! Orders that the source listings depend on: the key order of a map with
//! integer keys, the byte order of text, stable sorting and the removal of
//! adjacent duplicates.

use std::collections::BTreeMap;
use vstd::prelude::*;
use vstd::std_specs::btree::{increasing_seq, spec_btree_map_iter};
use vstd::std_specs::cmp::OrdSpec;
use vstd::std_specs::iter::IteratorSpec;

verus! {

pub open spec fn strictly_increasing(s: Seq<u32>) -> bool {
    forall|i: int, j: int| 0 <= i < j < s.len() ==> s[i] < s[j]
}

/// The keys of `m` in increasing order.
pub open spec fn key_order<V>(m: Map<u32, V>) -> Seq<u32> {
    choose|s: Seq<u32>| strictly_increasing(s) && s.to_set() == m.dom()
}

/// Two increasing sequences with the same elements are the same sequence.
pub proof fn increasing_sequences_agree(a: Seq<u32>, b: Seq<u32>)
    requires
        strictly_increasing(a),
        strictly_increasing(b),
        a.to_set() == b.to_set(),
    ensures
        a == b,
    decreases a.len(),
{
    if a.len() == 0 {
        if b.len() > 0 {
            assert(b.to_set().contains(b[0]));
        }
        assert(a =~= b);
    } else {
        assert(a.to_set().contains(a[0]));
        assert(b.len() > 0);
        assert(b.to_set().contains(b[0]));
        let j = choose|j: int| 0 <= j < b.len() && b[j] == a[0];
        let i = choose|i: int| 0 <= i < a.len() && a[i] == b[0];
        assert(a[0] == b[0]);
        let a_rest = a.drop_first();
        let b_rest = b.drop_first();
        assert forall|x: u32| a_rest.to_set().contains(x) implies b_rest.to_set().contains(x) by {
            let p = choose|p: int| 0 <= p < a_rest.len() && a_rest[p] == x;
            assert(a[p + 1] == x);
            assert(a.to_set().contains(x));
            let q = choose|q: int| 0 <= q < b.len() && b[q] == x;
            assert(q != 0);
            assert(b_rest[q - 1] == x);
        }
        assert forall|x: u32| b_rest.to_set().contains(x) implies a_rest.to_set().contains(x) by {
            let p = choose|p: int| 0 <= p < b_rest.len() && b_rest[p] == x;
            assert(b[p + 1] == x);
            assert(b.to_set().contains(x));
            let q = choose|q: int| 0 <= q < a.len() && a[q] == x;
            assert(q != 0);
            assert(a_rest[q - 1] == x);
        }
        assert(a_rest.to_set() =~= b_rest.to_set());
        increasing_sequences_agree(a_rest, b_rest);
        assert forall|k: int| 0 <= k < a.len() implies a[k] == b[k] by {
            if k > 0 {
                assert(a[k] == a_rest[k - 1]);
                assert(b[k] == b_rest[k - 1]);
            }
        }
        assert(a =~= b);
    }
}

/// The keys of `m`, in increasing order.
pub fn keys_in_order<V>(m: &BTreeMap<u32, V>) -> (keys: Vec<u32>)
    ensures
        keys@ == key_order(m@),
        strictly_increasing(keys@),
        keys@.to_set() == m@.dom(),
{
    broadcast use vstd::laws_cmp::group_laws_cmp, vstd::std_specs::btree::group_btree_axioms;

    let mut keys: Vec<u32> = Vec::new();
    for (key, value) in it: m.iter()
        invariant
            keys@ == it.seq().take(it.index()).map_values(|kv: (&u32, &V)| *kv.0),
            it.seq() == spec_btree_map_iter(m).remaining(),
    {
        keys.push(*key);
        proof {
            assert(keys@ =~= it.seq().take(it.index() + 1).map_values(|kv: (&u32, &V)| *kv.0));
        }
    }
    proof {
        let all = spec_btree_map_iter(m).remaining();
        assert(keys@ =~= all.map_values(|kv: (&u32, &V)| *kv.0));
        assert(increasing_seq(keys@));
        assert forall|i: int, j: int| 0 <= i < j < keys@.len() implies keys@[i] < keys@[j] by {
            assert(keys@[i].cmp_spec(&keys@[j]) is Less);
        }
        assert forall|k: u32| #[trigger] m@.dom().contains(k) implies keys@.to_set().contains(k) by {
            assert(all.contains((&k, &m@[k])));
            let i = choose|i: int| 0 <= i < all.len() && all[i] == (&k, &m@[k]);
            assert(keys@[i] == k);
        }
        assert forall|k: u32| #[trigger] keys@.to_set().contains(k) implies m@.dom().contains(k) by {
            let i = choose|i: int| 0 <= i < keys@.len() && keys@[i] == k;
            assert(m@.contains_key(*all[i].0));
        }
        assert(keys@.to_set() =~= m@.dom());
        increasing_sequences_agree(keys@, key_order(m@));
    }
    keys
}

/// `sorted` with `item` put after the last of its elements that `le`
/// places at or before `item`: one step of a stable insertion sort.
pub open spec fn insert_stably<T>(sorted: Seq<T>, item: T, le: spec_fn(T, T) -> bool) -> Seq<T>
    decreases sorted.len(),
{
    if sorted.len() == 0 {
        seq![item]
    } else if le(sorted.last(), item) {
        sorted.push(item)
    } else {
        insert_stably(sorted.drop_last(), item, le).push(sorted.last())
    }
}

/// `items` sorted by `le`, equal items keeping their order: what a stable
/// sort such as `slice::sort_by` gives.
pub open spec fn stable_sorted<T>(items: Seq<T>, le: spec_fn(T, T) -> bool) -> Seq<T>
    decreases items.len(),
{
    if items.len() == 0 {
        Seq::empty()
    } else {
        insert_stably(stable_sorted(items.drop_last(), le), items.last(), le)
    }
}

/// `items` without each element that `same` says repeats the one kept just
/// before it: what `Vec::dedup_by` leaves.
pub open spec fn without_adjacent_repeats<T>(items: Seq<T>, same: spec_fn(T, T) -> bool) -> Seq<T>
    decreases items.len(),
{
    if items.len() == 0 {
        Seq::empty()
    } else {
        let kept = without_adjacent_repeats(items.drop_last(), same);
        if kept.len() > 0 && same(items.last(), kept.last()) {
            kept
        } else {
            kept.push(items.last())
        }
    }
}

/// Whether `le` is a total preorder: every two items compare, and the order
/// is transitive.
pub open spec fn total_preorder<T>(le: spec_fn(T, T) -> bool) -> bool {
    &&& forall|a: T, b: T| #[trigger] le(a, b) || #[trigger] le(b, a)
    &&& forall|a: T, b: T, c: T| #[trigger] le(a, b) && #[trigger] le(b, c) ==> le(a, c)
}

pub open spec fn sorted_by<T>(items: Seq<T>, le: spec_fn(T, T) -> bool) -> bool {
    forall|i: int, j: int| 0 <= i < j < items.len() ==> le(#[trigger] items[i], #[trigger] items[j])
}

proof fn insert_stably_keeps_order<T>(sorted: Seq<T>, item: T, le: spec_fn(T, T) -> bool)
    requires
        total_preorder(le),
        sorted_by(sorted, le),
    ensures
        sorted_by(insert_stably(sorted, item, le), le),
        insert_stably(sorted, item, le).to_multiset() == sorted.to_multiset().insert(item),
    decreases sorted.len(),
{
    broadcast use vstd::seq_lib::group_to_multiset_ensures;

    if sorted.len() == 0 {
        assert(seq![item] =~= Seq::<T>::empty().push(item));
    } else if le(sorted.last(), item) {
        let result = sorted.push(item);
        assert forall|i: int, j: int| 0 <= i < j < result.len() implies le(
            #[trigger] result[i],
            #[trigger] result[j],
        ) by {
            if j == sorted.len() {
                if i < sorted.len() - 1 {
                    assert(le(sorted[i], sorted[sorted.len() - 1]));
                }
            }
        }
    } else {
        let shorter = sorted.drop_last();
        let last = sorted.last();
        assert(sorted_by(shorter, le));
        insert_stably_keeps_order(shorter, item, le);
        let inserted = insert_stably(shorter, item, le);
        let result = inserted.push(last);
        assert(le(item, last));
        assert forall|k: int| 0 <= k < inserted.len() implies le(#[trigger] inserted[k], last) by {
            assert(inserted.to_multiset().count(inserted[k]) > 0);
            if inserted[k] == item {
            } else {
                assert(shorter.to_multiset().count(inserted[k]) > 0);
                assert(shorter.contains(inserted[k]));
                let p = choose|p: int| 0 <= p < shorter.len() && shorter[p] == inserted[k];
                assert(le(sorted[p], sorted[sorted.len() - 1]));
            }
        }
        assert forall|i: int, j: int| 0 <= i < j < result.len() implies le(
            #[trigger] result[i],
            #[trigger] result[j],
        ) by {
            if j == inserted.len() {
                assert(le(inserted[i], last));
            } else {
                assert(le(inserted[i], inserted[j]));
            }
        }
        assert(sorted =~= shorter.push(last));
    }
}

/// A stable sort by a total preorder puts its items in order, and holds
/// the same items.
pub proof fn stable_sorted_is_sorted<T>(items: Seq<T>, le: spec_fn(T, T) -> bool)
    requires
        total_preorder(le),
    ensures
        sorted_by(stable_sorted(items, le), le),
        stable_sorted(items, le).to_multiset() == items.to_multiset(),
    decreases items.len(),
{
    broadcast use vstd::seq_lib::group_to_multiset_ensures;

    if items.len() > 0 {
        stable_sorted_is_sorted(items.drop_last(), le);
        insert_stably_keeps_order(stable_sorted(items.drop_last(), le), items.last(), le);
        assert(items =~= items.drop_last().push(items.last()));
    }
}

/// Which of two byte strings comes first in lexicographic order, as the
/// order of `[u8]` and `str` decides: negative, zero or positive.
pub open spec fn bytes_order(a: Seq<u8>, b: Seq<u8>) -> int
    decreases a.len(),
{
    if a.len() == 0 && b.len() == 0 {
        0
    } else if a.len() == 0 {
        -1
    } else if b.len() == 0 {
        1
    } else if a[0] < b[0] {
        -1
    } else if a[0] > b[0] {
        1
    } else {
        bytes_order(a.drop_first(), b.drop_first())
    }
}

/// The order of `str`: the lexicographic order of the UTF-8 bytes.
pub open spec fn text_order(a: Seq<char>, b: Seq<char>) -> int {
    bytes_order(vstd::utf8::encode_utf8(a), vstd::utf8::encode_utf8(b))
}

proof fn bytes_order_skip(a: Seq<u8>, b: Seq<u8>, count: int)
    requires
        0 <= count <= a.len(),
        count <= b.len(),
        forall|i: int| 0 <= i < count ==> a[i] == b[i],
    ensures
        bytes_order(a, b) == bytes_order(a.skip(count), b.skip(count)),
    decreases count,
{
    if count > 0 {
        bytes_order_skip(a.drop_first(), b.drop_first(), count - 1);
        assert(a.drop_first().skip(count - 1) =~= a.skip(count));
        assert(b.drop_first().skip(count - 1) =~= b.skip(count));
    } else {
        assert(a.skip(0) =~= a);
        assert(b.skip(0) =~= b);
    }
}

/// Compares two texts as `str` does.
pub fn compare_text(a: &str, b: &str) -> (order: i8)
    ensures
        order == text_order(a@, b@),
{
    let x = a.as_bytes();
    let y = b.as_bytes();
    let mut index: usize = 0;
    while index < x.len() && index < y.len()
        invariant
            x@ == vstd::utf8::encode_utf8(a@),
            y@ == vstd::utf8::encode_utf8(b@),
            index <= x@.len(),
            index <= y@.len(),
            forall|i: int| 0 <= i < index ==> x@[i] == y@[i],
        decreases x@.len() - index,
    {
        if x[index] != y[index] {
            proof {
                bytes_order_skip(x@, y@, index as int);
            }
            return if x[index] < y[index] {
                -1
            } else {
                1
            };
        }
        index = index + 1;
    }
    proof {
        bytes_order_skip(x@, y@, index as int);
    }
    if x.len() == y.len() {
        0
    } else if index == x.len() {
        -1
    } else {
        1
    }
}

/// Swapping two byte strings reverses their order.
pub proof fn bytes_order_reverses(a: Seq<u8>, b: Seq<u8>)
    ensures
        bytes_order(a, b) == -bytes_order(b, a),
        -1 <= bytes_order(a, b) <= 1,
    decreases a.len(),
{
    if a.len() > 0 && b.len() > 0 && a[0] == b[0] {
        bytes_order_reverses(a.drop_first(), b.drop_first());
    }
}

/// The byte order is transitive.
pub proof fn bytes_order_transitive(a: Seq<u8>, b: Seq<u8>, c: Seq<u8>)
    requires
        bytes_order(a, b) <= 0,
        bytes_order(b, c) <= 0,
    ensures
        bytes_order(a, c) <= 0,
    decreases a.len(),
{
    if a.len() > 0 && b.len() > 0 && c.len() > 0 && a[0] == b[0] && b[0] == c[0] {
        bytes_order_transitive(a.drop_first(), b.drop_first(), c.drop_first());
    }
}

/// Byte strings in order zero are equal.
pub proof fn bytes_order_equal(a: Seq<u8>, b: Seq<u8>)
    requires
        bytes_order(a, b) == 0,
    ensures
        a == b,
    decreases a.len(),
{
    if a.len() > 0 {
        bytes_order_equal(a.drop_first(), b.drop_first());
        assert(a =~= seq![a[0]] + a.drop_first());
        assert(b =~= seq![b[0]] + b.drop_first());
    } else {
        assert(a =~= b);
    }
}

/// The text order compares every two texts and is transitive.
pub proof fn text_order_is_total(a: Seq<char>, b: Seq<char>, c: Seq<char>)
    ensures
        text_order(a, b) == -text_order(b, a),
        -1 <= text_order(a, b) <= 1,
        text_order(a, b) <= 0 && text_order(b, c) <= 0 ==> text_order(a, c) <= 0,
        text_order(a, b) < 0 && text_order(b, c) <= 0 ==> text_order(a, c) < 0,
        text_order(a, b) <= 0 && text_order(b, c) < 0 ==> text_order(a, c) < 0,
{
    let x = vstd::utf8::encode_utf8(a);
    let y = vstd::utf8::encode_utf8(b);
    let z = vstd::utf8::encode_utf8(c);
    bytes_order_reverses(x, y);
    bytes_order_reverses(y, z);
    bytes_order_reverses(x, z);
    if bytes_order(x, y) <= 0 && bytes_order(y, z) <= 0 {
        bytes_order_transitive(x, y, z);
        if bytes_order(x, z) == 0 {
            bytes_order_equal(x, z);
            bytes_order_reverses(y, x);
            if bytes_order(x, y) < 0 || bytes_order(y, z) < 0 {
                bytes_order_transitive(y, z, x);
                bytes_order_transitive(z, x, y);
            }
        }
    }
}

} // verus!
