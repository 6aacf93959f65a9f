//! A map from texts to values, kept as a list of entries with distinct keys.

use crate::text::text_eq;
use vstd::prelude::*;

verus! {

/// A map from texts to values.
pub struct TextMap<V> {
    entries: Vec<(String, V)>,
}

impl<V> TextMap<V> {
    /// The key of the entry at `i`.
    pub closed spec fn key_at(&self, i: int) -> Seq<char> {
        self.entries@[i].0@
    }

    /// The value of the entry at `i`.
    pub closed spec fn value_at(&self, i: int) -> V {
        self.entries@[i].1
    }

    /// The number of entries.
    pub closed spec fn count(&self) -> nat {
        self.entries@.len()
    }

    /// No key stands in two entries.
    pub closed spec fn wf(&self) -> bool {
        forall|i: int, j: int|
            0 <= i < self.entries@.len() && 0 <= j < self.entries@.len() && i != j
                ==> self.entries@[i].0@ != self.entries@[j].0@
    }

    /// Whether an entry has the key `key`.
    pub closed spec fn has(&self, key: Seq<char>) -> bool {
        exists|i: int| 0 <= i < self.entries@.len() && self.entries@[i].0@ == key
    }

    /// The place of the entry with the key `key`.
    pub closed spec fn place(&self, key: Seq<char>) -> int {
        choose|i: int| 0 <= i < self.entries@.len() && self.entries@[i].0@ == key
    }

    /// Every entry is found under its key, and only entries are found.
    pub proof fn lemma_entries(&self)
        requires
            self.wf(),
        ensures
            self.count() == self@.dom().len(),
            self@.dom().finite(),
            forall|i: int|
                0 <= i < self.count() ==> self@.contains_key(#[trigger] self.key_at(i))
                    && self@[self.key_at(i)] == self.value_at(i),
            forall|i: int, j: int|
                0 <= i < self.count() && 0 <= j < self.count() && i != j ==> self.key_at(i)
                    != self.key_at(j),
            forall|key: Seq<char>| #[trigger]
                self@.contains_key(key) ==> exists|i: int|
                    0 <= i < self.count() && self.key_at(i) == key,
    {
        assert forall|i: int| 0 <= i < self.count() implies self@.contains_key(
            #[trigger] self.key_at(i),
        ) && self@[self.key_at(i)] == self.value_at(i) by {
            let key = self.entries@[i].0@;
            assert(self.has(key));
            let found = self.place(key);
            assert(self.entries@[found].0@ == key);
            assert(found == i);
        }
        let keys = self.entries@.map_values(|e: (String, V)| e.0@);
        assert(keys.no_duplicates());
        assert(keys.to_set() =~= self@.dom()) by {
            assert forall|key: Seq<char>| keys.to_set().contains(key) <==> self@.dom().contains(
                key,
            ) by {
                if keys.contains(key) {
                    let i = choose|i: int| 0 <= i < keys.len() && keys[i] == key;
                    assert(self.entries@[i].0@ == key);
                    assert(self.has(key));
                }
                if self.has(key) {
                    let i = self.place(key);
                    assert(keys[i] == key);
                }
            }
        }
        vstd::seq_lib::seq_to_set_is_finite(keys);
        keys.unique_seq_to_set();
        assert forall|key: Seq<char>| #[trigger] self@.contains_key(key) implies exists|i: int|
            0 <= i < self.count() && self.key_at(i) == key by {
            assert(self.has(key));
            assert(self.key_at(self.place(key)) == key);
        }
    }
}

impl<V> View for TextMap<V> {
    type V = Map<Seq<char>, V>;

    closed spec fn view(&self) -> Map<Seq<char>, V> {
        Map::new(|key: Seq<char>| self.has(key), |key: Seq<char>| self.entries@[self.place(key)].1)
    }
}

impl<V> TextMap<V> {
    /// The empty map.
    pub fn new() -> (map: Self)
        ensures
            map.wf(),
            map@ == Map::<Seq<char>, V>::empty(),
            map.count() == 0,
    {
        let map = TextMap { entries: Vec::new() };
        assert(map@ =~= Map::<Seq<char>, V>::empty());
        map
    }

    /// The number of entries.
    pub fn len(&self) -> (count: usize)
        ensures
            count == self.count(),
    {
        self.entries.len()
    }

    /// The place of the entry with the key `key`, if there is one.
    fn find(&self, key: &str) -> (found: Option<usize>)
        ensures
            match found {
                Some(i) => i < self.entries@.len() && self.entries@[i as int].0@ == key@,
                None => !self.has(key@),
            },
    {
        let mut i: usize = 0;
        while i < self.entries.len()
            invariant
                i <= self.entries.len(),
                forall|k: int| 0 <= k < i ==> self.entries@[k].0@ != key@,
            decreases self.entries.len() - i,
        {
            if text_eq(self.entries[i].0.as_str(), key) {
                return Some(i);
            }
            i += 1;
        }
        None
    }

    /// Whether the map has an entry for `key`.
    pub fn contains_key(&self, key: &str) -> (found: bool)
        ensures
            found == self@.contains_key(key@),
    {
        match self.find(key) {
            Some(i) => {
                assert(self.has(key@));
                true
            },
            None => false,
        }
    }

    /// The value under `key`, if there is one.
    pub fn get(&self, key: &str) -> (found: Option<&V>)
        requires
            self.wf(),
        ensures
            match found {
                Some(value) => self@.contains_key(key@) && self@[key@] == *value,
                None => !self@.contains_key(key@),
            },
    {
        match self.find(key) {
            Some(i) => {
                assert(self.has(key@));
                assert(self.place(key@) == i);
                Some(&self.entries[i].1)
            },
            None => None,
        }
    }

    /// The key of the entry at `i`.
    pub fn key(&self, i: usize) -> (key: &String)
        requires
            i < self.count(),
        ensures
            key@ == self.key_at(i as int),
    {
        &self.entries[i].0
    }

    /// The value of the entry at `i`.
    pub fn value(&self, i: usize) -> (value: &V)
        requires
            i < self.count(),
        ensures
            *value == self.value_at(i as int),
    {
        &self.entries[i].1
    }

    /// Takes the entry for `key` out of the map and hands its value back.
    pub fn remove(&mut self, key: &str) -> (removed: Option<V>)
        requires
            old(self).wf(),
        ensures
            final(self).wf(),
            final(self)@ == old(self)@.remove(key@),
            match removed {
                Some(value) => old(self)@.contains_key(key@) && old(self)@[key@] == value,
                None => !old(self)@.contains_key(key@),
            },
    {
        match self.find(key) {
            Some(i) => {
                let ghost before = *self;
                assert(before.has(key@));
                assert(before.place(key@) == i);
                let pair = self.entries.remove(i);
                proof {
                    let after = *self;
                    assert(pair == before.entries@[i as int]);
                    assert forall|k: int| 0 <= k < after.entries@.len() implies after.entries@[k]
                        == before.entries@[if k < i {
                        k
                    } else {
                        k + 1
                    }] by {}
                    assert forall|other: Seq<char>| after.has(other) <==> (before.has(other)
                        && other != key@) by {
                        if after.has(other) {
                            let k = after.place(other);
                            let source = if k < i {
                                k
                            } else {
                                k + 1
                            };
                            assert(before.entries@[source].0@ == other);
                        }
                        if before.has(other) && other != key@ {
                            let source = before.place(other);
                            let k = if source < i {
                                source
                            } else {
                                source - 1
                            };
                            assert(after.entries@[k].0@ == other);
                        }
                    }
                    assert forall|other: Seq<char>| after.has(other) implies after.entries@[after.place(
                        other,
                    )].1 == before.entries@[before.place(other)].1 by {
                        let k = after.place(other);
                        let source = if k < i {
                            k
                        } else {
                            k + 1
                        };
                        assert(before.entries@[source].0@ == other);
                        assert(before.has(other));
                        assert(before.place(other) == source);
                    }
                    assert(after@ =~= before@.remove(key@));
                }
                Some(pair.1)
            },
            None => {
                assert(self@ =~= self@.remove(key@));
                None
            },
        }
    }

    /// Puts `value` under `key`. The value that stood there before is handed
    /// back.
    pub fn insert(&mut self, key: String, value: V) -> (replaced: Option<V>)
        requires
            old(self).wf(),
        ensures
            final(self).wf(),
            final(self)@ == old(self)@.insert(key@, value),
            match replaced {
                Some(earlier) => old(self)@.contains_key(key@) && old(self)@[key@] == earlier,
                None => !old(self)@.contains_key(key@),
            },
    {
        let replaced = self.remove(key.as_str());
        let ghost before = *self;
        self.entries.push((key, value));
        proof {
            let after = *self;
            let last = before.entries@.len() as int;
            assert(!before@.contains_key(key@));
            assert(!before.has(key@));
            assert forall|i: int, j: int|
                0 <= i < after.entries@.len() && 0 <= j < after.entries@.len() && i
                    != j implies after.entries@[i].0@ != after.entries@[j].0@ by {
                if i < last && j < last {
                    assert(after.entries@[i] == before.entries@[i]);
                    assert(after.entries@[j] == before.entries@[j]);
                } else if i < last {
                    assert(after.entries@[i] == before.entries@[i]);
                } else {
                    assert(after.entries@[j] == before.entries@[j]);
                }
            }
            assert forall|other: Seq<char>| after.has(other) <==> (before.has(other) || other
                == key@) by {
                if after.has(other) {
                    let k = after.place(other);
                    if k < last {
                        assert(before.entries@[k].0@ == other);
                    }
                }
                if before.has(other) {
                    let k = before.place(other);
                    assert(after.entries@[k].0@ == other);
                }
                if other == key@ {
                    assert(after.entries@[last].0@ == other);
                }
            }
            assert forall|other: Seq<char>| after.has(other) implies after.entries@[after.place(
                other,
            )].1 == (if other == key@ {
                value
            } else {
                before.entries@[before.place(other)].1
            }) by {
                let k = after.place(other);
                if other == key@ {
                    assert(after.entries@[last].0@ == other);
                    assert(k == last);
                } else {
                    assert(before.entries@[k].0@ == other);
                    assert(before.has(other));
                    assert(before.place(other) == k);
                    assert(after.entries@[k] == before.entries@[k]);
                }
            }
            assert(after@ =~= before@.insert(key@, value));
            assert(before@.insert(key@, value) =~= old(self)@.insert(key@, value));
        }
        replaced
    }
}

} // verus!
