//! Stable sorting by a comparison: the order the option lists are shown
//! in, and what holds of them (the result is sorted and holds the same items).
use vstd::prelude::*;

verus! {

broadcast use vstd::seq_lib::group_seq_properties;

/// `x` put into `sorted` after every item that comes no later than it.
pub open spec fn insert_sorted<T>(sorted: Seq<T>, x: T, le: spec_fn(T, T) -> bool) -> Seq<T>
    decreases sorted.len(),
{
    if sorted.len() == 0 {
        seq![x]
    } else if le(sorted.last(), x) {
        sorted.push(x)
    } else {
        insert_sorted(sorted.drop_last(), x, le).push(sorted.last())
    }
}

/// `s` sorted by `le`, stably: items that compare equal keep their order.
pub open spec fn sort_by<T>(s: Seq<T>, le: spec_fn(T, T) -> bool) -> Seq<T>
    decreases s.len(),
{
    if s.len() == 0 {
        Seq::empty()
    } else {
        insert_sorted(sort_by(s.drop_last(), le), s.last(), le)
    }
}

/// Where scanning `sorted` from its end stops for `x`: just after the last
/// item that comes no later than `x`.
pub open spec fn insert_position<T>(sorted: Seq<T>, x: T, le: spec_fn(T, T) -> bool) -> int
    decreases sorted.len(),
{
    if sorted.len() == 0 {
        0
    } else if le(sorted.last(), x) {
        sorted.len() as int
    } else {
        insert_position(sorted.drop_last(), x, le)
    }
}

/// Every item comes no later than those after it.
pub open spec fn sorted_by<T>(s: Seq<T>, le: spec_fn(T, T) -> bool) -> bool {
    forall|i: int, j: int| 0 <= i < j < s.len() ==> le(#[trigger] s[i], #[trigger] s[j])
}

/// `le` is total and transitive.
pub open spec fn total_preorder<T>(le: spec_fn(T, T) -> bool) -> bool {
    &&& forall|a: T, b: T| #[trigger] le(a, b) || le(b, a)
    &&& forall|a: T, b: T, c: T| #[trigger] le(a, b) && #[trigger] le(b, c) ==> le(a, c)
}

pub proof fn lemma_insert_at_position<T>(sorted: Seq<T>, x: T, le: spec_fn(T, T) -> bool)
    ensures
        0 <= insert_position(sorted, x, le) <= sorted.len(),
        insert_sorted(sorted, x, le) == sorted.take(insert_position(sorted, x, le)) + seq![x]
            + sorted.skip(insert_position(sorted, x, le)),
    decreases sorted.len(),
{
    if sorted.len() == 0 {
        assert(sorted.take(0) + seq![x] + sorted.skip(0) =~= seq![x]);
    } else if le(sorted.last(), x) {
        assert(sorted.take(sorted.len() as int) + seq![x] + sorted.skip(sorted.len() as int)
            =~= sorted.push(x));
    } else {
        let d = sorted.drop_last();
        lemma_insert_at_position(d, x, le);
        let k = insert_position(d, x, le);
        assert(d.take(k) + seq![x] + d.skip(k) + seq![sorted.last()] =~= sorted.take(k) + seq![x]
            + sorted.skip(k));
    }
}

/// Sorting keeps the length.
pub proof fn lemma_sort_by_len<T>(s: Seq<T>, le: spec_fn(T, T) -> bool)
    ensures
        sort_by(s, le).len() == s.len(),
    decreases s.len(),
{
    if s.len() > 0 {
        lemma_sort_by_len(s.drop_last(), le);
        lemma_insert_at_position(sort_by(s.drop_last(), le), s.last(), le);
    }
}

/// Inserting adds exactly the one item.
pub proof fn lemma_insert_adds_item<T>(sorted: Seq<T>, x: T, le: spec_fn(T, T) -> bool)
    ensures
        insert_sorted(sorted, x, le).to_multiset() == sorted.to_multiset().insert(x),
    decreases sorted.len(),
{
    broadcast use vstd::multiset::group_multiset_axioms;

    if sorted.len() == 0 {
        assert(seq![x] =~= Seq::<T>::empty().push(x));
    } else if !le(sorted.last(), x) {
        let d = sorted.drop_last();
        lemma_insert_adds_item(d, x, le);
        assert(d.push(sorted.last()) =~= sorted);
        assert(insert_sorted(sorted, x, le).to_multiset() =~= sorted.to_multiset().insert(x));
    }
}

/// Inserting into a sorted sequence keeps it sorted.
pub proof fn lemma_insert_keeps_sorted<T>(sorted: Seq<T>, x: T, le: spec_fn(T, T) -> bool)
    requires
        total_preorder(le),
        sorted_by(sorted, le),
    ensures
        sorted_by(insert_sorted(sorted, x, le), le),
    decreases sorted.len(),
{
    if sorted.len() > 0 && !le(sorted.last(), x) {
        let d = sorted.drop_last();
        assert(sorted_by(d, le)) by {
            assert forall|i: int, j: int| 0 <= i < j < d.len() implies le(
                #[trigger] d[i],
                #[trigger] d[j],
            ) by {
                assert(d[i] == sorted[i] && d[j] == sorted[j]);
            }
        }
        lemma_insert_keeps_sorted(d, x, le);
        lemma_insert_at_position(d, x, le);
        let s = insert_sorted(d, x, le).push(sorted.last());
        assert(le(x, sorted.last()));
        assert forall|i: int, j: int| 0 <= i < j < s.len() implies le(
            #[trigger] s[i],
            #[trigger] s[j],
        ) by {
            if j == s.len() - 1 {
                let k = insert_position(d, x, le);
                if i < k {
                    assert(s[i] == sorted[i]);
                    assert(le(sorted[i], sorted[sorted.len() - 1]));
                } else if i == k {
                    assert(s[i] == x);
                } else {
                    assert(s[i] == sorted[i - 1]);
                    assert(le(sorted[i - 1], sorted[sorted.len() - 1]));
                }
            }
        }
    }
}

/// Sorting gives a sorted sequence of the same items.
pub proof fn lemma_sort_by_sorted<T>(s: Seq<T>, le: spec_fn(T, T) -> bool)
    requires
        total_preorder(le),
    ensures
        sorted_by(sort_by(s, le), le),
        sort_by(s, le).to_multiset() == s.to_multiset(),
    decreases s.len(),
{
    broadcast use vstd::multiset::group_multiset_axioms;

    if s.len() > 0 {
        lemma_sort_by_sorted(s.drop_last(), le);
        lemma_insert_keeps_sorted(sort_by(s.drop_last(), le), s.last(), le);
        lemma_insert_adds_item(sort_by(s.drop_last(), le), s.last(), le);
        assert(s.drop_last().push(s.last()) =~= s);
    }
}

/// `a` comes no later than `b` from index `i` on, in the order `str`
/// compares by: code point by code point, a prefix first.
pub open spec fn text_le_from(a: Seq<char>, b: Seq<char>, i: int) -> bool
    decreases a.len() - i,
{
    if i >= a.len() {
        true
    } else if i >= b.len() {
        false
    } else if a[i] != b[i] {
        a[i] < b[i]
    } else {
        text_le_from(a, b, i + 1)
    }
}

/// `a` comes no later than `b` in the order `str` compares by.
pub open spec fn text_le(a: Seq<char>, b: Seq<char>) -> bool {
    text_le_from(a, b, 0)
}

pub proof fn lemma_text_le_total(a: Seq<char>, b: Seq<char>, i: int)
    ensures
        text_le_from(a, b, i) || text_le_from(b, a, i),
    decreases a.len() - i,
{
    if i < a.len() && i < b.len() && a[i] == b[i] {
        lemma_text_le_total(a, b, i + 1);
    }
}

pub proof fn lemma_text_le_trans(a: Seq<char>, b: Seq<char>, c: Seq<char>, i: int)
    requires
        text_le_from(a, b, i),
        text_le_from(b, c, i),
    ensures
        text_le_from(a, c, i),
    decreases a.len() - i,
{
    if i < a.len() && i < b.len() && i < c.len() && a[i] == b[i] && b[i] == c[i] {
        lemma_text_le_trans(a, b, c, i + 1);
    }
}

pub proof fn lemma_text_le_antisymmetric(a: Seq<char>, b: Seq<char>, i: int)
    requires
        0 <= i <= a.len(),
        i <= b.len(),
        text_le_from(a, b, i),
        text_le_from(b, a, i),
    ensures
        a.len() == b.len(),
        forall|k: int| i <= k < a.len() ==> a[k] == b[k],
    decreases a.len() - i,
{
    if i < a.len() && i < b.len() {
        lemma_text_le_antisymmetric(a, b, i + 1);
    }
}

/// The text order is total and transitive, and texts that come no
/// later than each other are equal.
pub proof fn lemma_text_order()
    ensures
        total_preorder(|a: Seq<char>, b: Seq<char>| text_le(a, b)),
        forall|a: Seq<char>, b: Seq<char>| text_le(a, b) && text_le(b, a) ==> a == b,
{
    let le = |a: Seq<char>, b: Seq<char>| text_le(a, b);
    assert forall|a: Seq<char>, b: Seq<char>| #[trigger] le(a, b) || le(b, a) by {
        lemma_text_le_total(a, b, 0);
    }
    assert forall|a: Seq<char>, b: Seq<char>, c: Seq<char>| #[trigger] le(a, b) && #[trigger] le(b, c) implies le(a, c) by {
        lemma_text_le_trans(a, b, c, 0);
    }
    assert forall|a: Seq<char>, b: Seq<char>| text_le(a, b) && text_le(b, a) implies a == b by {
        lemma_text_le_antisymmetric(a, b, 0);
        assert(a =~= b);
    }
}

/// Whether `a` comes no later than `b` in the order `str` compares by.
pub fn text_le_chars(a: &Vec<char>, b: &Vec<char>) -> (r: bool)
    ensures
        r == text_le(a@, b@),
{
    let mut i: usize = 0;
    while i < a.len() && i < b.len() && a[i] == b[i]
        invariant
            i <= a@.len(),
            text_le(a@, b@) == text_le_from(a@, b@, i as int),
        decreases a@.len() - i,
    {
        i = i + 1;
    }
    if i >= a.len() {
        true
    } else if i >= b.len() {
        false
    } else {
        a[i] < b[i]
    }
}

} // verus!
