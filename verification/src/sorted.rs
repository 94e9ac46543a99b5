//! Sequences of keyed items in the canonical order: where a key belongs,
//! what inserting it there does, and why the order is canonical.

use vstd::prelude::*;

use crate::text::{lemma_precedes_is_strict_total_order, precedes, rank, strictly_sorted, Rank};

verus! {

/// An item that is found and ordered by a text of its own.
pub trait Keyed {
    /// The text that identifies the item.
    spec fn key(&self) -> Seq<char>;

    /// The key, as text that can be compared.
    fn key_text(&self) -> (text: &str)
        ensures
            text@ == self.key(),
    ;
}

impl Keyed for String {
    open spec fn key(&self) -> Seq<char> {
        self@
    }

    fn key_text(&self) -> (text: &str) {
        self.as_str()
    }
}

/// The keys of `items`, in the order of the items.
pub open spec fn keys_of<T: Keyed>(items: Seq<T>) -> Seq<Seq<char>> {
    Seq::new(items.len(), |i: int| items[i].key())
}

/// `slot` is the place of `key` among `keys`: all that stand before the slot
/// come before the key, and none of the others does.
pub open spec fn is_slot(keys: Seq<Seq<char>>, key: Seq<char>, slot: int) -> bool {
    &&& 0 <= slot <= keys.len()
    &&& forall|i: int| 0 <= i < slot ==> precedes(#[trigger] keys[i], key)
    &&& forall|i: int| slot <= i < keys.len() ==> !precedes(#[trigger] keys[i], key)
}

/// In a sorted sequence a key occurs, if at all, exactly at its slot.
pub proof fn lemma_slot_decides_membership(keys: Seq<Seq<char>>, key: Seq<char>, slot: int)
    requires
        strictly_sorted(keys),
        is_slot(keys, key, slot),
    ensures
        keys.contains(key) <==> (slot < keys.len() && keys[slot] == key),
        forall|j: int| 0 <= j < keys.len() && keys[j] == key ==> j == slot,
{
    assert forall|j: int| 0 <= j < keys.len() && keys[j] == key implies j == slot by {
        lemma_precedes_is_strict_total_order(key, key, key);
        if j < slot {
            assert(precedes(keys[j], key));
        } else if j > slot {
            assert(precedes(keys[slot], keys[j]));
            assert(!precedes(keys[slot], key));
        }
    }
    if slot < keys.len() && keys[slot] == key {
        assert(keys.contains(key));
    }
}

/// A sorted sequence holds no key twice.
pub proof fn lemma_sorted_has_no_duplicates(keys: Seq<Seq<char>>)
    requires
        strictly_sorted(keys),
    ensures
        keys.no_duplicates(),
{
    assert forall|i: int, j: int| 0 <= i < keys.len() && 0 <= j < keys.len() && i != j implies keys[i]
        != keys[j] by {
        lemma_precedes_is_strict_total_order(keys[i], keys[j], keys[i]);
        if i < j {
            assert(precedes(keys[i], keys[j]));
        } else {
            assert(precedes(keys[j], keys[i]));
        }
    }
}

/// Putting a new key into its slot keeps the sequence sorted and adds just
/// that key to what the sequence holds.
pub proof fn lemma_insert_at_slot(keys: Seq<Seq<char>>, key: Seq<char>, slot: int)
    requires
        strictly_sorted(keys),
        is_slot(keys, key, slot),
        !keys.contains(key),
    ensures
        strictly_sorted(keys.insert(slot, key)),
        keys.insert(slot, key).to_set() == keys.to_set().insert(key),
{
    let wider = keys.insert(slot, key);
    assert forall|i: int, j: int| 0 <= i < j < wider.len() implies precedes(
        #[trigger] wider[i],
        #[trigger] wider[j],
    ) by {
        if j == slot {
            assert(wider[i] == keys[i]);
        } else if i == slot {
            assert(wider[j] == keys[j - 1]);
            assert(!precedes(keys[j - 1], key));
            assert(keys.contains(keys[j - 1]));
            lemma_precedes_is_strict_total_order(key, keys[j - 1], key);
        } else {
            let a = if i < slot { i } else { i - 1 };
            let b = if j < slot { j } else { j - 1 };
            assert(wider[i] == keys[a]);
            assert(wider[j] == keys[b]);
        }
    }
    lemma_insert_widens_set(keys, key, slot);
}

/// Inserting an element anywhere adds just that element to what the
/// sequence holds.
pub proof fn lemma_insert_widens_set<A>(items: Seq<A>, item: A, at: int)
    requires
        0 <= at <= items.len(),
    ensures
        items.insert(at, item).to_set() == items.to_set().insert(item),
{
    let wider = items.insert(at, item);
    assert forall|x: A| wider.to_set().contains(x) <==> items.to_set().insert(item).contains(
        x,
    ) by {
        if wider.to_set().contains(x) {
            let i = choose|i: int| 0 <= i < wider.len() && wider[i] == x;
            if i < at {
                assert(items[i] == x);
            } else if i > at {
                assert(items[i - 1] == x);
            }
        }
        if items.to_set().insert(item).contains(x) {
            if x == item {
                assert(wider[at] == x);
            } else {
                let i = choose|i: int| 0 <= i < items.len() && items[i] == x;
                if i < at {
                    assert(wider[i] == x);
                } else {
                    assert(wider[i + 1] == x);
                }
            }
        }
    }
    assert(wider.to_set() =~= items.to_set().insert(item));
}

/// Appending an element adds just that element to what the sequence holds.
pub proof fn lemma_push_widens_set<A>(items: Seq<A>, item: A)
    ensures
        items.push(item).to_set() == items.to_set().insert(item),
{
    lemma_insert_widens_set(items, item, items.len() as int);
    assert(items.insert(items.len() as int, item) =~= items.push(item));
}

/// The order is canonical: two sorted sequences that hold the same keys are
/// the same sequence.
pub proof fn lemma_sorted_is_canonical(a: Seq<Seq<char>>, b: Seq<Seq<char>>)
    requires
        strictly_sorted(a),
        strictly_sorted(b),
        a.to_set() == b.to_set(),
    ensures
        a == b,
    decreases a.len(),
{
    if a.len() == 0 {
        if b.len() > 0 {
            assert(b.to_set().contains(b[0]));
            assert(a.to_set().contains(b[0]));
        }
        assert(a =~= b);
    } else if b.len() == 0 {
        assert(a.to_set().contains(a[0]));
        assert(b.to_set().contains(a[0]));
    } else {
        let x = a.last();
        let y = b.last();
        // The last element of each is the greatest key of the common set.
        assert(a.to_set().contains(x));
        assert(b.to_set().contains(x));
        assert(b.to_set().contains(y));
        assert(a.to_set().contains(y));
        let i = choose|i: int| 0 <= i < b.len() && b[i] == x;
        let j = choose|j: int| 0 <= j < a.len() && a[j] == y;
        lemma_precedes_is_strict_total_order(x, y, x);
        if i < b.len() - 1 {
            assert(precedes(b[i], b[b.len() - 1]));
        }
        if j < a.len() - 1 {
            assert(precedes(a[j], a[a.len() - 1]));
        }
        assert(x == y);
        let a0 = a.drop_last();
        let b0 = b.drop_last();
        lemma_sorted_has_no_duplicates(a);
        lemma_sorted_has_no_duplicates(b);
        assert forall|k: Seq<char>| a0.to_set().contains(k) <==> b0.to_set().contains(k) by {
            if a0.to_set().contains(k) {
                let p = choose|p: int| 0 <= p < a0.len() && a0[p] == k;
                assert(a[p] == k);
                assert(a.to_set().contains(k));
                assert(b.to_set().contains(k));
                let q = choose|q: int| 0 <= q < b.len() && b[q] == k;
                assert(q != b.len() - 1);
                assert(b0[q] == k);
            }
            if b0.to_set().contains(k) {
                let p = choose|p: int| 0 <= p < b0.len() && b0[p] == k;
                assert(b[p] == k);
                assert(b.to_set().contains(k));
                assert(a.to_set().contains(k));
                let q = choose|q: int| 0 <= q < a.len() && a[q] == k;
                assert(q != a.len() - 1);
                assert(a0[q] == k);
            }
        }
        assert(a0.to_set() =~= b0.to_set());
        assert(strictly_sorted(a0)) by {
            assert forall|p: int, q: int| 0 <= p < q < a0.len() implies precedes(
                #[trigger] a0[p],
                #[trigger] a0[q],
            ) by {
                assert(a0[p] == a[p] && a0[q] == a[q]);
            }
        }
        assert(strictly_sorted(b0)) by {
            assert forall|p: int, q: int| 0 <= p < q < b0.len() implies precedes(
                #[trigger] b0[p],
                #[trigger] b0[q],
            ) by {
                assert(b0[p] == b[p] && b0[q] == b[q]);
            }
        }
        lemma_sorted_is_canonical(a0, b0);
        assert(a =~= a0.push(x));
        assert(b =~= b0.push(y));
    }
}

/// Finds the slot of `key` among sorted items by halving the range in which
/// it can lie.
pub fn find_slot<T: Keyed>(items: &Vec<T>, key: &str) -> (slot: usize)
    requires
        strictly_sorted(keys_of(items@)),
    ensures
        is_slot(keys_of(items@), key@, slot as int),
{
    let ghost keys = keys_of(items@);
    let mut lo: usize = 0;
    let mut hi: usize = items.len();
    while lo < hi
        invariant
            keys == keys_of(items@),
            strictly_sorted(keys),
            lo <= hi <= items.len(),
            forall|i: int| 0 <= i < lo ==> precedes(#[trigger] keys[i], key@),
            forall|i: int| hi <= i < keys.len() ==> !precedes(#[trigger] keys[i], key@),
        decreases hi - lo,
    {
        let mid: usize = lo + (hi - lo) / 2;
        let here = rank(items[mid].key_text(), key);
        assert(keys[mid as int] == items@[mid as int].key());
        match here {
            Rank::Before => {
                assert forall|i: int| 0 <= i < mid + 1 implies precedes(
                    #[trigger] keys[i],
                    key@,
                ) by {
                    if i < mid {
                        assert(precedes(keys[i], keys[mid as int]));
                        lemma_precedes_is_strict_total_order(keys[i], keys[mid as int], key@);
                    }
                }
                lo = mid + 1;
            },
            _ => {
                assert forall|i: int| mid <= i < keys.len() implies !precedes(
                    #[trigger] keys[i],
                    key@,
                ) by {
                    lemma_precedes_is_strict_total_order(keys[mid as int], key@, keys[mid as int]);
                    if i > mid {
                        assert(precedes(keys[mid as int], keys[i]));
                        lemma_precedes_is_strict_total_order(keys[mid as int], keys[i], key@);
                    }
                }
                hi = mid;
            },
        }
    }
    lo
}

} // verus!
