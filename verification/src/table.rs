//! A map kept as a vector of entries in ascending key order.

use vstd::prelude::*;

verus! {

/// A key type with a strict total order on its views.
pub trait TableKey: View + Sized {
    /// Whether the first key comes before the second.
    spec fn precedes(left: Self::V, right: Self::V) -> bool;

    /// No key comes before itself.
    proof fn irreflexive(key: Self::V)
        ensures
            !Self::precedes(key, key),
    ;

    /// The order is transitive.
    proof fn transitive(a: Self::V, b: Self::V, c: Self::V)
        requires
            Self::precedes(a, b),
            Self::precedes(b, c),
        ensures
            Self::precedes(a, c),
    ;

    /// Of two different keys one comes before the other.
    proof fn total(left: Self::V, right: Self::V)
        ensures
            left == right || Self::precedes(left, right) || Self::precedes(right, left),
    ;

    /// Whether this key comes before the other.
    fn is_before(&self, other: &Self) -> (result: bool)
        ensures
            result == Self::precedes(self@, other@),
    ;
}

/// One key with its value.
pub struct Entry<K, V> {
    pub key: K,
    pub value: V,
}

/// A map from keys to values, held in ascending key order.
pub struct Table<K, V> {
    entries: Vec<Entry<K, V>>,
}

impl<K: TableKey, V: View> View for Table<K, V> {
    type V = Map<K::V, V::V>;

    closed spec fn view(&self) -> Map<K::V, V::V> {
        Map::new(
            |key: K::V| exists|i: int| 0 <= i < self.entries@.len() && self.entries@[i].key@ == key,
            |key: K::V|
                self.entries@[choose|i: int|
                    0 <= i < self.entries@.len() && self.entries@[i].key@ == key].value@,
        )
    }
}

impl<K: TableKey, V: View> Table<K, V> {
    /// The keys strictly ascend.
    pub closed spec fn wf(&self) -> bool {
        forall|i: int, j: int|
            0 <= i < j < self.entries@.len() ==> K::precedes(
                #[trigger] self.entries@[i].key@,
                #[trigger] self.entries@[j].key@,
            )
    }

    /// The keys in ascending order.
    pub closed spec fn keys(&self) -> Seq<K::V> {
        Seq::new(self.entries@.len(), |i: int| self.entries@[i].key@)
    }

    proof fn entry_in_view(&self, i: int)
        requires
            self.wf(),
            0 <= i < self.entries@.len(),
        ensures
            self@.dom().contains(self.entries@[i].key@),
            self@[self.entries@[i].key@] == self.entries@[i].value@,
    {
        let key = self.entries@[i].key@;
        let j = choose|j: int| 0 <= j < self.entries@.len() && self.entries@[j].key@ == key;
        if i < j {
            K::irreflexive(key);
        } else if j < i {
            K::irreflexive(key);
        }
    }

    /// The listed keys are those of the map, each once, in ascending order.
    pub proof fn keys_are_the_domain(&self)
        requires
            self.wf(),
        ensures
            forall|i: int, j: int|
                0 <= i < j < self.keys().len() ==> K::precedes(
                    #[trigger] self.keys()[i],
                    #[trigger] self.keys()[j],
                ),
            forall|i: int|
                0 <= i < self.keys().len() ==> self@.dom().contains(#[trigger] self.keys()[i]),
            forall|key: K::V|
                self@.dom().contains(key) ==> exists|i: int|
                    0 <= i < self.keys().len() && #[trigger] self.keys()[i] == key,
    {
        assert forall|i: int| 0 <= i < self.keys().len() implies self@.dom().contains(
            #[trigger] self.keys()[i],
        ) by {
            self.entry_in_view(i);
        }
        assert forall|key: K::V| self@.dom().contains(key) implies exists|i: int|
            0 <= i < self.keys().len() && #[trigger] self.keys()[i] == key by {
            let i = choose|i: int| 0 <= i < self.entries@.len() && self.entries@[i].key@ == key;
            assert(self.keys()[i] == key);
        }
    }

    /// There is one key for each element of the domain.
    pub proof fn as_many_keys_as_elements(&self)
        requires
            self.wf(),
        ensures
            self@.dom().finite(),
            self@.dom().len() == self.keys().len(),
    {
        self.keys_are_the_domain();
        let keys = self.keys();
        assert(keys.no_duplicates()) by {
            assert forall|i: int, j: int| 0 <= i < j < keys.len() implies keys[i] != keys[j] by {
                K::irreflexive(keys[i]);
            }
        }
        keys.unique_seq_to_set();
        assert(self@.dom() =~= keys.to_set()) by {
            assert forall|key: K::V| self@.dom().contains(key) implies keys.contains(key) by {
                let i = choose|i: int| 0 <= i < keys.len() && #[trigger] keys[i] == key;
            }
        }
    }

    /// An empty map.
    pub fn new() -> (table: Self)
        ensures
            table.wf(),
            table@ == Map::<K::V, V::V>::empty(),
    {
        let table = Table { entries: Vec::new() };
        assert(table@ =~= Map::<K::V, V::V>::empty());
        table
    }

    /// The number of entries.
    pub fn len(&self) -> (len: usize)
        ensures
            len == self.keys().len(),
            self.wf() ==> self@.dom().finite() && len == self@.dom().len(),
    {
        proof {
            if self.wf() {
                self.as_many_keys_as_elements();
            }
        }
        self.entries.len()
    }

    /// The key at a position.
    pub fn key_at(&self, i: usize) -> (key: &K)
        requires
            i < self.keys().len(),
        ensures
            key@ == self.keys()[i as int],
    {
        &self.entries[i].key
    }

    /// The value at a position.
    pub fn value_at(&self, i: usize) -> (value: &V)
        requires
            self.wf(),
            i < self.keys().len(),
        ensures
            self@.dom().contains(self.keys()[i as int]),
            value@ == self@[self.keys()[i as int]],
    {
        proof {
            self.entry_in_view(i as int);
        }
        &self.entries[i].value
    }

    fn lower_bound(&self, key: &K) -> (position: usize)
        requires
            self.wf(),
        ensures
            position <= self.entries@.len(),
            forall|i: int|
                0 <= i < position ==> K::precedes(#[trigger] self.entries@[i].key@, key@),
            forall|i: int|
                position <= i < self.entries@.len() ==> !K::precedes(
                    #[trigger] self.entries@[i].key@,
                    key@,
                ),
    {
        let mut position: usize = 0;
        let mut end: usize = self.entries.len();
        while position < end
            invariant
                self.wf(),
                position <= end <= self.entries@.len(),
                forall|i: int|
                    0 <= i < position ==> K::precedes(#[trigger] self.entries@[i].key@, key@),
                forall|i: int|
                    end <= i < self.entries@.len() ==> !K::precedes(
                        #[trigger] self.entries@[i].key@,
                        key@,
                    ),
            decreases end - position,
        {
            let middle: usize = position + (end - position) / 2;
            if self.entries[middle].key.is_before(key) {
                proof {
                    assert forall|i: int| 0 <= i < middle + 1 implies K::precedes(
                        #[trigger] self.entries@[i].key@,
                        key@,
                    ) by {
                        if i < middle {
                            K::transitive(
                                self.entries@[i].key@,
                                self.entries@[middle as int].key@,
                                key@,
                            );
                        }
                    }
                }
                position = middle + 1;
            } else {
                proof {
                    assert forall|i: int| middle <= i < self.entries@.len() implies !K::precedes(
                        #[trigger] self.entries@[i].key@,
                        key@,
                    ) by {
                        if middle < i && K::precedes(self.entries@[i].key@, key@) {
                            K::transitive(
                                self.entries@[middle as int].key@,
                                self.entries@[i].key@,
                                key@,
                            );
                        }
                    }
                }
                end = middle;
            }
        }
        position
    }

    fn find(&self, key: &K) -> (position: Option<usize>)
        requires
            self.wf(),
        ensures
            position matches Some(i) ==> i < self.entries@.len() && self.entries@[i as int].key@
                == key@ && self@.dom().contains(key@) && self@[key@] == self.entries@[i as int].value@,
            position is None ==> !self@.dom().contains(key@),
    {
        let position = self.lower_bound(key);
        proof {
            assert forall|i: int| 0 <= i < self.entries@.len() && #[trigger] self.entries@[i].key@
                == key@ implies i == position by {
                K::irreflexive(key@);
                if i > position {
                    K::total(self.entries@[position as int].key@, key@);
                }
            }
        }
        if position < self.entries.len() && !key.is_before(&self.entries[position].key) {
            proof {
                K::total(self.entries@[position as int].key@, key@);
                self.entry_in_view(position as int);
            }
            Some(position)
        } else {
            proof {
                if position < self.entries@.len() {
                    K::irreflexive(key@);
                }
            }
            None
        }
    }

    /// Whether the map holds a key.
    pub fn contains(&self, key: &K) -> (found: bool)
        requires
            self.wf(),
        ensures
            found == self@.dom().contains(key@),
    {
        self.find(key).is_some()
    }

    /// The value of a key.
    pub fn get(&self, key: &K) -> (value: Option<&V>)
        requires
            self.wf(),
        ensures
            value matches Some(v) ==> self@.dom().contains(key@) && v@ == self@[key@],
            value is None ==> !self@.dom().contains(key@),
    {
        match self.find(key) {
            Some(i) => Some(&self.entries[i].value),
            None => None,
        }
    }

    /// Takes every entry out of the map, in ascending order of the keys.
    pub fn take_all(&mut self) -> (entries: Vec<Entry<K, V>>)
        requires
            old(self).wf(),
        ensures
            final(self).wf(),
            final(self)@ == Map::<K::V, V::V>::empty(),
            forall|i: int, j: int|
                0 <= i < j < entries@.len() ==> (#[trigger] entries@[i]).key@ != (
                #[trigger] entries@[j]).key@,
            forall|i: int|
                0 <= i < entries@.len() ==> old(self)@.dom().contains((#[trigger] entries@[i]).key@)
                    && old(self)@[entries@[i].key@] == entries@[i].value@,
            forall|key: K::V| #[trigger]
                old(self)@.dom().contains(key) ==> exists|i: int|
                    0 <= i < entries@.len() && (#[trigger] entries@[i]).key@ == key,
    {
        let mut entries: Vec<Entry<K, V>> = Vec::new();
        std::mem::swap(&mut entries, &mut self.entries);
        proof {
            assert(self@ =~= Map::<K::V, V::V>::empty());
            assert(entries@ == old(self).entries@);
            assert forall|i: int| 0 <= i < entries@.len() implies old(self)@.dom().contains(
                (#[trigger] entries@[i]).key@,
            ) && old(self)@[entries@[i].key@] == entries@[i].value@ by {
                old(self).entry_in_view(i);
            }
            assert forall|i: int, j: int| 0 <= i < j < entries@.len() implies (
            #[trigger] entries@[i]).key@ != (#[trigger] entries@[j]).key@ by {
                K::irreflexive(entries@[i].key@);
            }
        }
        entries
    }

    /// Takes an entry out of the map.
    pub fn remove(&mut self, key: &K) -> (value: Option<V>)
        requires
            old(self).wf(),
        ensures
            final(self).wf(),
            final(self)@ == old(self)@.remove(key@),
            value matches Some(v) ==> old(self)@.dom().contains(key@) && v@ == old(self)@[key@],
            value is None ==> !old(self)@.dom().contains(key@),
    {
        match self.find(key) {
            Some(i) => {
                let entry = self.entries.remove(i);
                proof {
                    let before = old(self).entries@;
                    let after = self.entries@;
                    assert(after =~= before.remove(i as int));
                    assert forall|k: int, l: int| 0 <= k < l < after.len() implies K::precedes(
                        #[trigger] after[k].key@,
                        #[trigger] after[l].key@,
                    ) by {
                        let k0 = if k < i { k } else { k + 1 };
                        let l0 = if l < i { l } else { l + 1 };
                        assert(K::precedes(before[k0].key@, before[l0].key@));
                    }
                    assert(self.wf());
                    assert forall|other: K::V| #[trigger] self@.dom().contains(other) == old(
                        self,
                    )@.remove(key@).dom().contains(other) by {
                        if self@.dom().contains(other) {
                            let k = choose|k: int| 0 <= k < after.len() && after[k].key@ == other;
                            let k0 = if k < i { k } else { k + 1 };
                            assert(before[k0].key@ == other);
                            old(self).entry_in_view(k0);
                            if other == key@ {
                                K::irreflexive(key@);
                                if k0 < i {
                                    assert(K::precedes(before[k0].key@, before[i as int].key@));
                                } else {
                                    assert(K::precedes(before[i as int].key@, before[k0].key@));
                                }
                            }
                        }
                        if old(self)@.remove(key@).dom().contains(other) {
                            let k0 = choose|k: int|
                                0 <= k < before.len() && before[k].key@ == other;
                            let k = if k0 < i { k0 } else { k0 - 1 };
                            assert(after[k].key@ == other);
                            self.entry_in_view(k);
                        }
                    }
                    assert forall|other: K::V| self@.dom().contains(other) implies
                        #[trigger] self@[other] == old(self)@.remove(key@)[other] by {
                        let k = choose|k: int| 0 <= k < after.len() && after[k].key@ == other;
                        let k0 = if k < i { k } else { k + 1 };
                        assert(before[k0].key@ == other);
                        old(self).entry_in_view(k0);
                        self.entry_in_view(k);
                    }
                    assert(self@ =~= old(self)@.remove(key@));
                }
                Some(entry.value)
            },
            None => {
                assert(self@ =~= old(self)@.remove(key@));
                None
            },
        }
    }

    /// Puts an entry into the map, in place of an earlier one with its key.
    pub fn insert(&mut self, key: K, value: V) -> (previous: Option<V>)
        requires
            old(self).wf(),
        ensures
            final(self).wf(),
            final(self)@ == old(self)@.insert(key@, value@),
            previous matches Some(v) ==> old(self)@.dom().contains(key@) && v@ == old(self)@[key@],
            previous is None ==> !old(self)@.dom().contains(key@),
    {
        let previous = self.remove(&key);
        let ghost cleared = *self;
        let ghost inserted = Entry { key, value };
        let i = self.lower_bound(&key);
        self.entries.insert(i, Entry { key, value });
        proof {
            let before = cleared.entries@;
            let after = self.entries@;
            assert(after =~= before.insert(i as int, inserted));
            assert forall|k: int| i <= k < before.len() implies K::precedes(
                inserted.key@,
                #[trigger] before[k].key@,
            ) by {
                K::total(before[k].key@, inserted.key@);
                cleared.entry_in_view(k);
            }
            assert forall|k: int, l: int| 0 <= k < l < after.len() implies K::precedes(
                #[trigger] after[k].key@,
                #[trigger] after[l].key@,
            ) by {
                if k == i {
                    assert(after[l] == before[l - 1]);
                } else if l == i {
                    assert(after[k] == before[k]);
                } else {
                    let k0 = if k < i { k } else { k - 1 };
                    let l0 = if l < i { l } else { l - 1 };
                    assert(K::precedes(before[k0].key@, before[l0].key@));
                }
            }
            assert(self.wf());
            assert forall|other: K::V| #[trigger] self@.dom().contains(other) == cleared@.insert(
                inserted.key@,
                inserted.value@,
            ).dom().contains(other) by {
                if self@.dom().contains(other) {
                    let k = choose|k: int| 0 <= k < after.len() && after[k].key@ == other;
                    if k != i {
                        let k0 = if k < i { k } else { k - 1 };
                        assert(before[k0].key@ == other);
                        cleared.entry_in_view(k0);
                    }
                }
                if cleared@.dom().contains(other) {
                    let k0 = choose|k: int| 0 <= k < before.len() && before[k].key@ == other;
                    let k = if k0 < i { k0 } else { k0 + 1 };
                    assert(after[k].key@ == other);
                    self.entry_in_view(k);
                }
                self.entry_in_view(i as int);
            }
            assert forall|other: K::V| self@.dom().contains(other) implies #[trigger] self@[other]
                == cleared@.insert(inserted.key@, inserted.value@)[other] by {
                let k = choose|k: int| 0 <= k < after.len() && after[k].key@ == other;
                self.entry_in_view(k);
                if k != i {
                    let k0 = if k < i { k } else { k - 1 };
                    assert(before[k0].key@ == other);
                    cleared.entry_in_view(k0);
                    if other == inserted.key@ {
                        assert(!cleared@.dom().contains(inserted.key@));
                    }
                }
            }
            assert(self@ =~= cleared@.insert(inserted.key@, inserted.value@));
            assert(self@ =~= old(self)@.insert(inserted.key@, inserted.value@));
        }
        previous
    }
}

} // verus!
