//! Stable sorting by a rank and a text.

use crate::text::{
    comes_before, lemma_precedes_irreflexive, lemma_precedes_total, lemma_precedes_transitive,
    precedes,
};
use vstd::prelude::*;

verus! {

/// What an item is sorted by: first the rank, the lower the earlier, then the
/// text, in the order of strings.
pub struct SortKey {
    pub rank: u8,
    pub text: Vec<char>,
}

/// The content of a [`SortKey`].
pub struct Key {
    pub rank: u8,
    pub text: Seq<char>,
}

impl View for SortKey {
    type V = Key;

    open spec fn view(&self) -> Key {
        Key { rank: self.rank, text: self.text@ }
    }
}

/// The contents of a list of keys.
pub open spec fn keys_of(keys: Seq<SortKey>) -> Seq<Key> {
    keys.map_values(|key: SortKey| key@)
}

/// Whether the key `a` sorts before the key `b`.
pub open spec fn key_before(a: Key, b: Key) -> bool {
    a.rank < b.rank || (a.rank == b.rank && precedes(a.text, b.text))
}

/// Whether the item at `i` sorts before the item at `j`: by its key, and
/// among equal keys by its place.
pub open spec fn item_before(keys: Seq<Key>, i: int, j: int) -> bool {
    key_before(keys[i], keys[j]) || (keys[i] == keys[j] && i < j)
}

/// Whether `order` lists the places of `keys` sorted: every place once, each
/// before all that sort after it. There is one such list.
pub open spec fn is_sorted_order(keys: Seq<Key>, order: Seq<usize>) -> bool {
    &&& order.len() == keys.len()
    &&& forall|i: int| 0 <= i < order.len() ==> 0 <= #[trigger] order[i] < keys.len()
    &&& forall|i: int, j: int|
        0 <= i < j < order.len() ==> item_before(keys, order[i] as int, order[j] as int)
}

/// The order of keys is a strict total order.
pub proof fn lemma_key_order(a: Key, b: Key, c: Key)
    ensures
        !key_before(a, a),
        a != b ==> key_before(a, b) || key_before(b, a),
        !(key_before(a, b) && key_before(b, a)),
        key_before(a, b) && key_before(b, c) ==> key_before(a, c),
{
    lemma_precedes_irreflexive(a.text);
    lemma_precedes_total(a.text, b.text);
    if key_before(a, b) && key_before(b, c) {
        if a.rank == b.rank && b.rank == c.rank {
            lemma_precedes_transitive(a.text, b.text, c.text);
        }
    }
}

/// A sorted order lists no place twice.
pub proof fn lemma_sorted_order_is_permutation(keys: Seq<Key>, order: Seq<usize>)
    requires
        is_sorted_order(keys, order),
    ensures
        order.no_duplicates(),
{
    assert forall|i: int, j: int| 0 <= i < order.len() && 0 <= j < order.len() && i != j implies order[i]
        != order[j] by {
        lemma_key_order(keys[order[i] as int], keys[order[i] as int], keys[order[i] as int]);
        if i < j {
            assert(item_before(keys, order[i] as int, order[j] as int));
        } else {
            assert(item_before(keys, order[j] as int, order[i] as int));
        }
    }
}

/// The items of `items` in the order that `order` gives: the item at place
/// `order[k]` comes to stand at `k`.
pub fn arrange<T>(items: Vec<T>, order: &Vec<usize>) -> (arranged: Vec<T>)
    requires
        order@.len() == items@.len(),
        order@.no_duplicates(),
        forall|i: int| 0 <= i < order@.len() ==> #[trigger] order@[i] < items@.len(),
    ensures
        arranged@.len() == items@.len(),
        forall|k: int| 0 <= k < arranged@.len() ==> #[trigger] arranged@[k] == items@[order@[k] as int],
{
    let ghost given = items@;
    let count = items.len();
    let mut rest = items;
    let mut slots: Vec<Option<T>> = Vec::new();
    while rest.len() > 0
        invariant
            rest@.len() + slots@.len() == count,
            count == given.len(),
            rest@ == given.take(rest@.len() as int),
            forall|j: int|
                0 <= j < slots@.len() ==> #[trigger] slots@[j] == Some(given[count - 1 - j]),
        decreases rest@.len(),
    {
        let item = rest.pop();
        slots.push(item);
        proof {
            assert(rest@ == given.take(rest@.len() as int));
        }
    }
    let mut arranged: Vec<T> = Vec::new();
    let mut k: usize = 0;
    while k < count
        invariant
            k <= count,
            count == given.len(),
            slots@.len() == count,
            order@.len() == count,
            order@.no_duplicates(),
            forall|i: int| 0 <= i < order@.len() ==> #[trigger] order@[i] < count,
            arranged@.len() == k,
            forall|i: int| 0 <= i < k ==> #[trigger] arranged@[i] == given[order@[i] as int],
            forall|j: int|
                0 <= j < count ==> #[trigger] slots@[j] == if exists|i: int|
                    0 <= i < k && order@[i] == count - 1 - j {
                    None
                } else {
                    Some(given[count - 1 - j])
                },
        decreases count - k,
    {
        let place = count - 1 - order[k];
        proof {
            if exists|i: int| 0 <= i < k && order@[i] == count - 1 - place {
                let i = choose|i: int| 0 <= i < k && order@[i] == count - 1 - place;
                assert(order@[i] == order@[k as int]);
            }
        }
        let taken = slots[place].take();
        match taken {
            Some(item) => {
                arranged.push(item);
            },
            None => {
                assert(false);
            },
        }
        proof {
            assert forall|j: int| 0 <= j < count implies #[trigger] slots@[j] == if exists|i: int|
                0 <= i < k + 1 && order@[i] == count - 1 - j {
                None
            } else {
                Some(given[count - 1 - j])
            } by {
                if j == place {
                    assert(order@[k as int] == count - 1 - j);
                } else {
                    if exists|i: int| 0 <= i < k + 1 && order@[i] == count - 1 - j {
                        let i = choose|i: int| 0 <= i < k + 1 && order@[i] == count - 1 - j;
                        assert(i != k);
                        assert(0 <= i < k && order@[i] == count - 1 - j);
                    }
                }
            }
        }
        k += 1;
    }
    arranged
}

/// Whether the key `a` sorts before the key `b`.
pub fn key_less(a: &SortKey, b: &SortKey) -> (less: bool)
    ensures
        less == key_before(a@, b@),
{
    if a.rank != b.rank {
        return a.rank < b.rank;
    }
    comes_before(a.text.as_slice(), b.text.as_slice())
}

/// The places of `keys` in sorted order. Items with equal keys keep the
/// order in which they stand.
pub fn sorted_order(keys: &Vec<SortKey>) -> (order: Vec<usize>)
    ensures
        is_sorted_order(keys_of(keys@), order@),
        order@.no_duplicates(),
{
    let ghost all = keys_of(keys@);
    let mut order: Vec<usize> = Vec::new();
    let mut next: usize = 0;
    while next < keys.len()
        invariant
            next <= keys.len(),
            all == keys_of(keys@),
            order@.len() == next,
            forall|i: int| 0 <= i < order@.len() ==> 0 <= #[trigger] order@[i] < next,
            forall|i: int, j: int|
                0 <= i < j < order@.len() ==> item_before(all, order@[i] as int, order@[j] as int),
        decreases keys.len() - next,
    {
        let mut place: usize = next;
        while place > 0 && key_less(&keys[next], &keys[order[place - 1]])
            invariant
                place <= next,
                next < keys.len(),
                all == keys_of(keys@),
                order@.len() == next,
                forall|i: int| 0 <= i < order@.len() ==> 0 <= #[trigger] order@[i] < next,
                forall|j: int|
                    place <= j < next ==> key_before(all[next as int], all[#[trigger] order@[j] as int]),
            decreases place,
        {
            place -= 1;
        }
        let ghost before = order@;
        order.insert(place, next);
        proof {
            assert forall|i: int, j: int| 0 <= i < j < order@.len() implies item_before(
                all,
                order@[i] as int,
                order@[j] as int,
            ) by {
                let a = order@[i] as int;
                let b = order@[j] as int;
                if j < place {
                    assert(order@[i] == before[i] && order@[j] == before[j]);
                } else if j == place {
                    // the new item after an old one
                    assert(order@[i] == before[i]);
                    let last = before[place - 1] as int;
                    lemma_key_order(all[next as int], all[last], all[a]);
                    lemma_key_order(all[a], all[last], all[next as int]);
                    assert(!key_before(all[next as int], all[last]));
                    assert(item_before(all, last, next as int));
                    if i < place - 1 {
                        assert(item_before(all, a, last));
                    }
                } else if i < place {
                    // an old item before an old item, the new one between them
                    assert(order@[i] == before[i] && order@[j] == before[j - 1]);
                } else if i == place {
                    assert(order@[j] == before[j - 1]);
                } else {
                    assert(order@[i] == before[i - 1] && order@[j] == before[j - 1]);
                }
            }
        }
        next += 1;
    }
    proof {
        lemma_sorted_order_is_permutation(all, order@);
    }
    order
}

/// Whether `sorted` holds the items of `items` in the sorted order of their
/// keys, items with equal keys in the order in which they stood.
pub open spec fn is_sorted_by<T>(items: Seq<T>, keys: Seq<Key>, sorted: Seq<T>) -> bool {
    exists|order: Seq<usize>|
        {
            &&& #[trigger] is_sorted_order(keys, order)
            &&& sorted.len() == items.len()
            &&& forall|k: int| 0 <= k < sorted.len() ==> #[trigger] sorted[k] == items[order[k] as int]
        }
}

/// Sorts `items` by `keys`, the key of each item at the item's place. Items
/// with equal keys keep their order.
pub fn sort_by_keys<T>(items: Vec<T>, keys: &Vec<SortKey>) -> (sorted: Vec<T>)
    requires
        items@.len() == keys@.len(),
    ensures
        is_sorted_by(items@, keys_of(keys@), sorted@),
        sorted@.len() == items@.len(),
{
    let order = sorted_order(keys);
    let ghost before = items@;
    let sorted = arrange(items, &order);
    proof {
        assert(is_sorted_order(keys_of(keys@), order@));
    }
    sorted
}

} // verus!
