//! A map held as a list of entries with distinct keys.
use crate::sums::{map_sum, seq_sum};
use vstd::prelude::*;
use vstd::std_specs::cmp::PartialEqSpec;

verus! {

/// A value that can serve as a key of a [`KeyedMap`].
pub trait Key: View + Clone {
    /// Whether the two keys have the same contents.
    fn same(&self, other: &Self) -> (same: bool)
        ensures
            same == (self@ == other@),
    ;

    /// Cloning a key keeps its contents.
    proof fn clone_keeps_contents(key: Self, copy: Self)
        requires
            cloned(key, copy),
        ensures
            copy@ == key@,
    ;
}

/// A map from the contents of keys to values. Entries stay in the order in which
/// their keys were first inserted.
#[derive(Debug)]
pub struct KeyedMap<K, V> {
    entries: Vec<(K, V)>,
}

/// The map that a list of entries stands for.
spec fn entries_map<K: View, V>(entries: Seq<(K, V)>) -> Map<K::V, V>
    decreases entries.len(),
{
    if entries.len() == 0 {
        Map::empty()
    } else {
        entries_map(entries.drop_last()).insert(entries.last().0@, entries.last().1)
    }
}

/// The contents of the keys of a list of entries.
spec fn entries_keys<K: View, V>(entries: Seq<(K, V)>) -> Seq<K::V> {
    entries.map_values(|entry: (K, V)| entry.0@)
}

/// With distinct keys, each entry is found in the map, and nothing else is.
proof fn lemma_entries_map<K: View, V>(entries: Seq<(K, V)>)
    requires
        entries_keys(entries).no_duplicates(),
    ensures
        entries_map(entries).dom().finite(),
        entries_map(entries).dom().len() == entries.len(),
        forall|i: int|
            0 <= i < entries.len() ==> entries_map(entries).contains_key(
                (#[trigger] entries[i]).0@,
            ) && entries_map(entries)[entries[i].0@] == entries[i].1,
        forall|k: K::V|
            #[trigger] entries_map(entries).contains_key(k) <==> entries_keys(entries).contains(k),
    decreases entries.len(),
{
    let keys = entries_keys(entries);
    if entries.len() > 0 {
        let rest = entries.drop_last();
        let m = entries_map(rest);
        let k = entries.last().0@;
        assert(entries_keys(rest) =~= keys.drop_last());
        lemma_entries_map(rest);
        assert(!m.contains_key(k)) by {
            if keys.drop_last().contains(k) {
                let i = choose|i: int| 0 <= i < rest.len() && keys.drop_last()[i] == k;
                assert(keys[i] == keys[entries.len() - 1]);
            }
        }
        assert forall|i: int| 0 <= i < entries.len() implies entries_map(entries).contains_key(
            (#[trigger] entries[i]).0@,
        ) && entries_map(entries)[entries[i].0@] == entries[i].1 by {
            if i < rest.len() {
                assert(rest[i] == entries[i]);
            }
        }
        assert forall|j: K::V| #[trigger] entries_map(entries).contains_key(j) implies keys.contains(
            j,
        ) by {
            if j == k {
                assert(keys[entries.len() - 1] == j);
            } else {
                let i = choose|i: int| 0 <= i < rest.len() && keys.drop_last()[i] == j;
                assert(keys[i] == j);
            }
        }
        assert forall|j: K::V| keys.contains(j) implies #[trigger] entries_map(
            entries,
        ).contains_key(j) by {
            let i = choose|i: int| 0 <= i < entries.len() && keys[i] == j;
            assert(entries[i].0@ == j);
        }
    }
}

/// Replacing the value of an entry sets its key in the map.
proof fn lemma_entries_update<K: View, V>(entries: Seq<(K, V)>, i: int, v: V)
    requires
        entries_keys(entries).no_duplicates(),
        0 <= i < entries.len(),
    ensures
        entries_keys(entries.update(i, (entries[i].0, v))) == entries_keys(entries),
        entries_map(entries.update(i, (entries[i].0, v))) == entries_map(entries).insert(
            entries[i].0@,
            v,
        ),
{
    let after = entries.update(i, (entries[i].0, v));
    assert(entries_keys(after) =~= entries_keys(entries));
    lemma_entries_map(entries);
    lemma_entries_map(after);
    let m = entries_map(entries).insert(entries[i].0@, v);
    assert forall|k: K::V| #[trigger] m.contains_key(k) implies entries_map(after)[k] == m[k] by {
        let keys = entries_keys(entries);
        assert(keys[i] == entries[i].0@);
        assert(keys.contains(k)) by {
            assert(k == keys[i] || entries_map(entries).contains_key(k));
        }
        let j = choose|j: int| 0 <= j < entries.len() && keys[j] == k;
        assert(after[j].0@ == k);
        assert(entries[j].0@ == k);
        if j != i {
            assert(keys[j] != keys[i]);
        }
    }
    assert forall|k: K::V| entries_map(after).contains_key(k) == #[trigger] m.contains_key(k) by {
        assert(entries_keys(entries)[i] == entries[i].0@);
        assert(entries_map(after).contains_key(k) <==> entries_keys(after).contains(k));
        assert(entries_map(entries).contains_key(k) <==> entries_keys(entries).contains(k));
    }
    assert(entries_map(after) =~= m);
}

impl<K: View, V> View for KeyedMap<K, V> {
    type V = Map<K::V, V>;

    closed spec fn view(&self) -> Map<K::V, V> {
        entries_map(self.entries@)
    }
}

impl<K: View, V> KeyedMap<K, V> {
    /// No key occurs twice.
    pub closed spec fn wf(&self) -> bool {
        entries_keys(self.entries@).no_duplicates()
    }

    /// The keys, in the order in which they were first inserted.
    pub closed spec fn keys(&self) -> Seq<K::V> {
        entries_keys(self.entries@)
    }

    /// The keys are those of the map, each once.
    pub proof fn lemma_keys(&self)
        requires
            self.wf(),
        ensures
            self@.dom().finite(),
            self@.dom().len() == self.keys().len(),
            self.keys().no_duplicates(),
            forall|k: K::V| #[trigger] self@.contains_key(k) <==> self.keys().contains(k),
    {
        lemma_entries_map(self.entries@);
    }
}

impl<K: Key, V> KeyedMap<K, V> {
    /// The empty map.
    pub fn new() -> (map: Self)
        ensures
            map.wf(),
            map@ == Map::<K::V, V>::empty(),
            map.keys() == Seq::<K::V>::empty(),
    {
        let map = KeyedMap { entries: Vec::new() };
        assert(entries_keys(map.entries@) =~= Seq::<K::V>::empty());
        map
    }

    /// The number of keys.
    pub fn len(&self) -> (len: usize)
        requires
            self.wf(),
        ensures
            len == self@.dom().len(),
            len == self.keys().len(),
    {
        proof {
            lemma_entries_map(self.entries@);
        }
        self.entries.len()
    }

    /// The first place of a key among the entries.
    fn position(&self, key: &K) -> (slot: Option<usize>)
        ensures
            match slot {
                Some(i) => {
                    &&& i < self.entries@.len()
                    &&& self.entries@[i as int].0@ == key@
                    &&& forall|j: int| 0 <= j < i ==> (#[trigger] self.entries@[j]).0@ != key@
                },
                None => forall|j: int|
                    0 <= j < self.entries@.len() ==> (#[trigger] self.entries@[j]).0@ != key@,
            },
    {
        let mut i: usize = 0;
        while i < self.entries.len()
            invariant
                i <= self.entries@.len(),
                forall|j: int| 0 <= j < i ==> (#[trigger] self.entries@[j]).0@ != key@,
            decreases self.entries@.len() - i,
        {
            if self.entries[i].0.same(key) {
                return Some(i);
            }
            i = i + 1;
        }
        None
    }

    /// The place of a key among the entries.
    fn find(&self, key: &K) -> (slot: Option<usize>)
        requires
            self.wf(),
        ensures
            match slot {
                Some(i) => {
                    &&& i < self.entries@.len()
                    &&& self.entries@[i as int].0@ == key@
                    &&& self@.contains_key(key@)
                    &&& self@[key@] == self.entries@[i as int].1
                },
                None => !self@.contains_key(key@),
            },
    {
        let slot: Option<usize> = self.position(key);
        proof {
            lemma_entries_map(self.entries@);
            if slot is None && self@.contains_key(key@) {
                let j = choose|j: int| 0 <= j < self.keys().len() && self.keys()[j] == key@;
                assert(self.entries@[j].0@ == key@);
            }
        }
        slot
    }

    /// Whether the key is in the map.
    pub fn contains_key(&self, key: &K) -> (found: bool)
        requires
            self.wf(),
        ensures
            found == self@.contains_key(key@),
    {
        self.find(key).is_some()
    }

    /// The value of a key.
    pub fn get(&self, key: &K) -> (value: Option<&V>)
        requires
            self.wf(),
        ensures
            match value {
                Some(v) => self@.contains_key(key@) && *v == self@[key@],
                None => !self@.contains_key(key@),
            },
    {
        match self.find(key) {
            Some(i) => Some(&self.entries[i].1),
            None => None,
        }
    }

    /// The value of a key, for change.
    pub fn get_mut(&mut self, key: &K) -> (value: Option<&mut V>)
        requires
            old(self).wf(),
        ensures
            final(self).wf(),
            final(self).keys() == old(self).keys(),
            match value {
                Some(v) => {
                    &&& old(self)@.contains_key(key@)
                    &&& *v == old(self)@[key@]
                    &&& final(self)@ == old(self)@.insert(key@, *final(v))
                },
                None => !old(self)@.contains_key(key@) && *final(self) == *old(self),
            },
    {
        match self.find(key) {
            Some(i) => {
                proof {
                    let before = self.entries@;
                    let k = before[i as int].0;
                    assert forall|v: V| #![trigger before.update(i as int, (k, v))]
                        entries_map(before.update(i as int, (k, v))) == self@.insert(key@, v)
                        && entries_keys(before.update(i as int, (k, v))) == entries_keys(before) by {
                        lemma_entries_update(before, i as int, v);
                    }
                }
                Some(&mut self.entries[i].1)
            },
            None => None,
        }
    }

    /// Sets the value of a key and returns the one it had.
    pub fn insert(&mut self, key: K, value: V) -> (previous: Option<V>)
        requires
            old(self).wf(),
        ensures
            final(self).wf(),
            final(self)@ == old(self)@.insert(key@, value),
            final(self).keys() == (if old(self)@.contains_key(key@) {
                old(self).keys()
            } else {
                old(self).keys().push(key@)
            }),
            previous == (if old(self)@.contains_key(key@) {
                Some(old(self)@[key@])
            } else {
                None
            }),
    {
        match self.find(&key) {
            Some(i) => {
                let mut taken: V = value;
                proof {
                    lemma_entries_update(self.entries@, i as int, value);
                }
                std::mem::swap(&mut taken, &mut self.entries[i].1);
                Some(taken)
            },
            None => {
                proof {
                    lemma_entries_map(self.entries@);
                }
                self.entries.push((key, value));
                proof {
                    let before = old(self).entries@;
                    assert(self.entries@.drop_last() =~= before);
                    assert(entries_keys(self.entries@) =~= entries_keys(before).push(key@));
                    assert(!entries_keys(before).contains(key@));
                }
                None
            },
        }
    }

    /// The key at a place in the order of the keys.
    pub fn key_at(&self, i: usize) -> (key: &K)
        requires
            self.wf(),
            i < self.keys().len(),
        ensures
            key@ == self.keys()[i as int],
            self@.contains_key(key@),
    {
        proof {
            lemma_entries_map(self.entries@);
        }
        &self.entries[i].0
    }

    /// The value at a place in the order of the keys.
    pub fn value_at(&self, i: usize) -> (value: &V)
        requires
            self.wf(),
            i < self.keys().len(),
        ensures
            *value == self@[self.keys()[i as int]],
    {
        proof {
            lemma_entries_map(self.entries@);
        }
        &self.entries[i].1
    }

    /// The values, in the order of their keys.
    pub fn values(&self) -> (values: Vec<&V>)
        requires
            self.wf(),
        ensures
            values@.len() == self.keys().len(),
            forall|i: int|
                0 <= i < values@.len() ==> *(#[trigger] values@[i]) == self@[self.keys()[i]],
    {
        let mut values: Vec<&V> = Vec::with_capacity(self.entries.len());
        let mut i: usize = 0;
        while i < self.entries.len()
            invariant
                self.wf(),
                self.keys().len() == self.entries@.len(),
                i <= self.entries@.len(),
                values@.len() == i,
                forall|j: int| 0 <= j < i ==> *(#[trigger] values@[j]) == self@[self.keys()[j]],
            decreases self.entries@.len() - i,
        {
            values.push(self.value_at(i));
            i = i + 1;
        }
        values
    }
}

impl<K: Key, V: Clone> Clone for KeyedMap<K, V> {
    fn clone(&self) -> (copy: Self)
        ensures
            self.wf() ==> {
                &&& copy.wf()
                &&& copy.keys() == self.keys()
                &&& copy@.dom() == self@.dom()
                &&& forall|k: K::V| #[trigger]
                    self@.contains_key(k) ==> cloned(self@[k], copy@[k])
            },
    {
        let mut entries: Vec<(K, V)> = Vec::with_capacity(self.entries.len());
        let mut i: usize = 0;
        while i < self.entries.len()
            invariant
                i <= self.entries@.len(),
                entries@.len() == i,
                forall|j: int|
                    0 <= j < i ==> (#[trigger] entries@[j]).0@ == self.entries@[j].0@ && cloned(
                        self.entries@[j].1,
                        entries@[j].1,
                    ),
            decreases self.entries@.len() - i,
        {
            let key: K = self.entries[i].0.clone();
            proof {
                K::clone_keeps_contents(self.entries@[i as int].0, key);
            }
            entries.push((key, self.entries[i].1.clone()));
            i = i + 1;
        }
        let copy = KeyedMap { entries };
        proof {
            if self.wf() {
                assert(entries_keys(copy.entries@) =~= entries_keys(self.entries@));
                lemma_entries_map(self.entries@);
                lemma_entries_map(copy.entries@);
                assert(copy@.dom() =~= self@.dom()) by {
                    assert forall|k: K::V| copy@.dom().contains(k) == self@.dom().contains(k) by {
                        assert(copy@.contains_key(k) <==> copy.keys().contains(k));
                        assert(self@.contains_key(k) <==> self.keys().contains(k));
                    }
                }
                assert forall|k: K::V| #[trigger] self@.contains_key(k) implies cloned(
                    self@[k],
                    copy@[k],
                ) by {
                    let j = choose|j: int| 0 <= j < self.keys().len() && self.keys()[j] == k;
                    assert(self.entries@[j].0@ == k);
                    assert(copy.entries@[j].0@ == k);
                }
            }
        }
        copy
    }
}

/// Whether two lists have the same length, and each entry of the first has its like
/// where its key first occurs in the second.
spec fn entries_match<K: View, V: PartialEq>(left: Seq<(K, V)>, right: Seq<(K, V)>) -> bool {
    &&& left.len() == right.len()
    &&& forall|i: int| 0 <= i < left.len() ==> has_match(#[trigger] left[i], right)
}

/// Whether an entry has its like in a list.
spec fn has_match<K: View, V: PartialEq>(entry: (K, V), entries: Seq<(K, V)>) -> bool {
    exists|j: int| #[trigger] entry_matches(entry, entries, j)
}

/// Whether an entry has its like at a place of a list, where its key first occurs.
spec fn entry_matches<K: View, V: PartialEq>(entry: (K, V), entries: Seq<(K, V)>, j: int) -> bool {
    &&& 0 <= j < entries.len()
    &&& entries[j].0@ == entry.0@
    &&& entry.1.eq_spec(&entries[j].1)
    &&& forall|l: int| 0 <= l < j ==> (#[trigger] entries[l]).0@ != entry.0@
}

impl<K: Key, V: PartialEq> PartialEq for KeyedMap<K, V> {
    fn eq(&self, other: &Self) -> (equal: bool) {
        if self.entries.len() != other.entries.len() {
            return false;
        }
        let mut i: usize = 0;
        while i < self.entries.len()
            invariant
                i <= self.entries@.len(),
                self.entries@.len() == other.entries@.len(),
                V::obeys_eq_spec() ==> forall|l: int|
                    0 <= l < i ==> has_match(#[trigger] self.entries@[l], other.entries@),
            decreases self.entries@.len() - i,
        {
            let slot: Option<usize> = other.position(&self.entries[i].0);
            match slot {
                Some(j) => {
                    let equal: bool = self.entries[i].1 == other.entries[j].1;
                    proof {
                        let entry = self.entries@[i as int];
                        if V::obeys_eq_spec() {
                            assert(equal ==> entry_matches(entry, other.entries@, j as int));
                            assert(!equal ==> !has_match(entry, other.entries@));
                        }
                    }
                    if !equal {
                        return false;
                    }
                },
                None => {
                    return false;
                },
            }
            i = i + 1;
        }
        true
    }
}

impl<K: Key, V: PartialEq> vstd::std_specs::cmp::PartialEqSpecImpl for KeyedMap<K, V> {
    open spec fn obeys_eq_spec() -> bool {
        V::obeys_eq_spec()
    }

    closed spec fn eq_spec(&self, other: &Self) -> bool {
        entries_match(self.entries@, other.entries@)
    }
}

impl<K: Key, V: PartialEq> KeyedMap<K, V> {
    /// Two maps are equal if they have the same keys with equal values, whatever the
    /// order in which the keys were inserted.
    pub proof fn lemma_equal(&self, other: &Self)
        requires
            self.wf(),
            other.wf(),
        ensures
            PartialEqSpec::eq_spec(self, other) <==> {
                &&& self@.dom() == other@.dom()
                &&& forall|k: K::V| #[trigger]
                    self@.contains_key(k) ==> self@[k].eq_spec(&other@[k])
            },
    {
        let left = self.entries@;
        let right = other.entries@;
        lemma_entries_map(left);
        lemma_entries_map(right);
        if PartialEqSpec::eq_spec(self, other) {
            assert forall|k: K::V| #[trigger] self@.contains_key(k) implies other@.contains_key(k)
                && self@[k].eq_spec(&other@[k]) by {
                let i = choose|i: int| 0 <= i < self.keys().len() && self.keys()[i] == k;
                assert(left[i].0@ == k);
                assert(has_match(left[i], right));
                let j = choose|j: int| entry_matches(left[i], right, j);
                assert(right[j].0@ == k);
            }
            vstd::set_lib::lemma_subset_equality(self@.dom(), other@.dom());
        }
        if self@.dom() == other@.dom() && (forall|k: K::V| #[trigger]
            self@.contains_key(k) ==> self@[k].eq_spec(&other@[k])) {
            assert forall|i: int| 0 <= i < left.len() implies has_match(#[trigger] left[i], right) by {
                let k = left[i].0@;
                assert(self@.contains_key(k));
                assert(other@.contains_key(k));
                let j = choose|j: int| 0 <= j < other.keys().len() && other.keys()[j] == k;
                assert(right[j].0@ == k);
                assert forall|l: int| 0 <= l < j implies (#[trigger] right[l]).0@ != k by {
                    assert(other.keys()[l] != other.keys()[j]);
                }
                assert(entry_matches(left[i], right, j));
            }
        }
    }
}

impl<K: Key, V> Default for KeyedMap<K, V> {
    fn default() -> (map: Self)
        ensures
            map.wf(),
            map@ == Map::<K::V, V>::empty(),
    {
        KeyedMap::new()
    }
}

/// Summing over a map's keys in any order gives the map's sum.
pub proof fn lemma_map_sum_keys<K, V>(
    m: Map<K, V>,
    keys: Seq<K>,
    f: spec_fn(V) -> nat,
    g: spec_fn(K) -> nat,
)
    requires
        m.dom().finite(),
        keys.no_duplicates(),
        forall|k: K| #[trigger] m.contains_key(k) <==> keys.contains(k),
        forall|k: K| #[trigger] m.contains_key(k) ==> g(k) == f(m[k]),
    ensures
        seq_sum(keys, g) == map_sum(m, f),
    decreases keys.len(),
{
    if keys.len() == 0 {
        assert(m.dom() =~= Set::empty()) by {
            assert forall|k: K| !m.dom().contains(k) by {
                assert(m.contains_key(k) <==> keys.contains(k));
            }
        }
    } else {
        let k = keys.last();
        let rest = keys.drop_last();
        assert(keys[keys.len() - 1] == k);
        assert(m.contains_key(k));
        assert forall|j: K| #[trigger] m.remove(k).contains_key(j) <==> rest.contains(j) by {
            if m.remove(k).contains_key(j) {
                assert(m.contains_key(j));
                let i = choose|i: int| 0 <= i < keys.len() && keys[i] == j;
                assert(rest[i] == j);
            }
            if rest.contains(j) {
                let i = choose|i: int| 0 <= i < rest.len() && rest[i] == j;
                assert(keys[i] == j);
                assert(keys.contains(j));
                assert(m.contains_key(j));
                assert(keys[i] != keys[keys.len() - 1]);
            }
        }
        assert forall|j: K| #[trigger] m.remove(k).contains_key(j) implies g(j) == f(
            m.remove(k)[j],
        ) by {
            assert(m.contains_key(j));
        }
        crate::sums::lemma_map_sum_remove(m, k, f);
        lemma_map_sum_keys(m.remove(k), rest, f, g);
    }
}

} // verus!
