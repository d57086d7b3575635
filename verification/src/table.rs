//! A small map keyed by text.
//!
//! The registry's maps hold tens of entries, so a table is a list of entries
//! in which no key occurs twice. Its view is the mathematical map from keys
//! to values; the order of the entries is not part of that view.

use vstd::prelude::*;

verus! {

#[derive(Debug)]
struct Entry<T> {
    key: String,
    value: T,
}

/// A finite map from text keys to values of type `T`.
#[derive(Debug)]
pub struct Table<T> {
    entries: Vec<Entry<T>>,
}

/// The map that pairs each key with the value at the same position.
pub open spec fn pairs_to_map<K, T>(keys: Seq<K>, values: Seq<T>) -> Map<K, T> {
    Map::new(|k: K| keys.contains(k), |k: K| values[keys.index_of(k)])
}

/// In a list of distinct keys, the position of a key is the one place where
/// it occurs.
pub proof fn lemma_index_of_unique<K>(keys: Seq<K>, i: int)
    requires
        keys.no_duplicates(),
        0 <= i < keys.len(),
    ensures
        keys.contains(keys[i]),
        keys.index_of(keys[i]) == i,
{
    let j = keys.index_of(keys[i]);
    assert(keys.contains(keys[i]));
    assert(0 <= j < keys.len() && keys[j] == keys[i]);
}

/// The list with its elements in the opposite order.
pub fn reversed<T>(list: Vec<T>) -> (turned: Vec<T>)
    ensures
        turned@.len() == list@.len(),
        forall|j: int| 0 <= j < turned@.len() ==> turned@[j] == list@[list@.len() - 1 - j],
{
    let mut list = list;
    let ghost all = list@;
    let mut turned: Vec<T> = Vec::new();
    while list.len() > 0
        invariant
            turned@.len() + list@.len() == all.len(),
            list@ =~= all.subrange(0, list@.len() as int),
            forall|j: int| 0 <= j < turned@.len() ==> turned@[j] == all[all.len() - 1 - j],
        decreases list.len(),
    {
        let item = list.pop().unwrap();
        turned.push(item);
    }
    turned
}

/// Whether the name at position `i` is known and is `wanted`.
pub open spec fn named_at(names: Seq<Option<String>>, i: int, wanted: Seq<char>) -> bool {
    names[i] is Some && names[i]->0@ == wanted
}

/// Whether `i` is the first position at which the name is `wanted`.
pub open spec fn is_first_named(names: Seq<Option<String>>, i: int, wanted: Seq<char>) -> bool {
    &&& 0 <= i < names.len()
    &&& named_at(names, i, wanted)
    &&& forall|j: int| 0 <= j < i ==> !named_at(names, j, wanted)
}

/// Whether the name is `wanted` at no position.
pub open spec fn none_named(names: Seq<Option<String>>, wanted: Seq<char>) -> bool {
    forall|j: int| 0 <= j < names.len() ==> !named_at(names, j, wanted)
}

/// The first position at which the name is `wanted`, if there is one. A name
/// that is not known is passed over.
pub fn position_of(names: &Vec<Option<String>>, wanted: &str) -> (found: Option<usize>)
    ensures
        match found {
            Some(i) => is_first_named(names@, i as int, wanted@),
            None => none_named(names@, wanted@),
        },
{
    let needle = wanted.to_owned();
    let mut i: usize = 0;
    while i < names.len()
        invariant
            i <= names@.len(),
            needle@ == wanted@,
            forall|j: int| 0 <= j < i ==> !named_at(names@, j, wanted@),
        decreases names.len() - i,
    {
        let named = match &names[i] {
            Some(name) => *name == needle,
            None => false,
        };
        if named {
            return Some(i);
        }
        i += 1;
    }
    None
}

/// What the positions of a list of distinct keys say about the map that
/// pairs them with a list of values of the same length.
pub proof fn lemma_pairs<K, T>(keys: Seq<K>, values: Seq<T>)
    requires
        keys.no_duplicates(),
        keys.len() == values.len(),
    ensures
        pairs_to_map(keys, values).dom().finite(),
        pairs_to_map(keys, values).len() == keys.len(),
        pairs_to_map(keys, values).dom() == keys.to_set(),
        forall|k: K| #[trigger] pairs_to_map(keys, values).contains_key(k) <==> keys.contains(k),
        forall|i: int|
            0 <= i < keys.len() ==> pairs_to_map(keys, values).contains_key(#[trigger] keys[i])
                && pairs_to_map(keys, values)[keys[i]] == values[i],
{
    let m = pairs_to_map(keys, values);
    assert forall|i: int| 0 <= i < keys.len() implies m.contains_key(#[trigger] keys[i]) && m[keys[i]]
        == values[i] by {
        lemma_index_of_unique(keys, i);
    }
    assert(m.dom() =~= keys.to_set());
    keys.unique_seq_to_set();
}

impl<T> Table<T> {
    /// The keys, in the order in which the entries are stored.
    pub closed spec fn keys(&self) -> Seq<Seq<char>> {
        Seq::new(self.entries@.len(), |i: int| self.entries@[i].key@)
    }

    /// The values, in the order in which the entries are stored.
    pub closed spec fn values(&self) -> Seq<T> {
        Seq::new(self.entries@.len(), |i: int| self.entries@[i].value)
    }

    /// No key occurs twice.
    #[verifier::type_invariant]
    pub closed spec fn wf(&self) -> bool {
        self.keys().no_duplicates()
    }

    /// The map this table stands for.
    pub open spec fn view(&self) -> Map<Seq<char>, T> {
        pairs_to_map(self.keys(), self.values())
    }

    /// What a well-formed table's positions say about its view.
    pub proof fn lemma_positions(&self)
        requires
            self.wf(),
        ensures
            self.keys().len() == self.values().len(),
            self.keys().no_duplicates(),
            self@.dom().finite(),
            self@.len() == self.keys().len(),
            forall|k: Seq<char>| #[trigger] self@.contains_key(k) <==> self.keys().contains(k),
            forall|i: int|
                0 <= i < self.keys().len() ==> self@.contains_key(#[trigger] self.keys()[i])
                    && self@[self.keys()[i]] == self.values()[i],
    {
        lemma_pairs(self.keys(), self.values());
    }

    /// An empty table.
    pub fn new() -> (table: Table<T>)
        ensures
            table@ == Map::<Seq<char>, T>::empty(),
            table.keys().len() == 0,
            table.wf(),
    {
        let table = Table { entries: Vec::new() };
        assert(table@ =~= Map::<Seq<char>, T>::empty());
        table
    }

    /// Number of entries.
    pub fn len(&self) -> (n: usize)
        ensures
            n == self.keys().len(),
            n == self.values().len(),
            n == self@.len(),
            self.wf(),
    {
        proof {
            use_type_invariant(self);
            self.lemma_positions();
        }
        self.entries.len()
    }

    /// The key stored at position `i`.
    pub fn key_at(&self, i: usize) -> (key: &String)
        requires
            i < self.keys().len(),
        ensures
            key@ == self.keys()[i as int],
            self@.contains_key(key@),
    {
        proof {
            use_type_invariant(self);
            self.lemma_positions();
        }
        &self.entries[i].key
    }

    /// The value stored at position `i`.
    pub fn value_at(&self, i: usize) -> (value: &T)
        requires
            i < self.keys().len(),
        ensures
            *value == self.values()[i as int],
            self@.contains_key(self.keys()[i as int]),
            self@[self.keys()[i as int]] == *value,
    {
        proof {
            use_type_invariant(self);
            self.lemma_positions();
        }
        &self.entries[i].value
    }

    /// Position of `key`, if the table holds it.
    pub fn position(&self, key: &String) -> (found: Option<usize>)
        ensures
            match found {
                Some(i) => i < self.keys().len() && self.keys()[i as int] == key@
                    && self@.contains_key(key@),
                None => !self@.contains_key(key@),
            },
    {
        proof {
            use_type_invariant(self);
            self.lemma_positions();
        }
        let mut i: usize = 0;
        while i < self.entries.len()
            invariant
                i <= self.entries.len(),
                self.wf(),
                self.entries@.len() == self.keys().len(),
                forall|j: int| 0 <= j < i ==> self.keys()[j] != key@,
            decreases self.entries.len() - i,
        {
            if self.entries[i].key == *key {
                proof {
                    self.lemma_positions();
                }
                return Some(i);
            }
            i += 1;
        }
        None
    }

    /// Whether the table holds `key`.
    pub fn contains_key(&self, key: &String) -> (held: bool)
        ensures
            held == self@.contains_key(key@),
    {
        self.position(key).is_some()
    }

    /// The value stored under `key`, if any.
    pub fn get(&self, key: &String) -> (value: Option<&T>)
        ensures
            match value {
                Some(v) => self@.contains_key(key@) && self@[key@] == *v,
                None => !self@.contains_key(key@),
            },
    {
        match self.position(key) {
            Some(i) => Some(self.value_at(i)),
            None => None,
        }
    }

    /// Stores `value` under `key`, handing back the value it replaces.
    pub fn insert(&mut self, key: String, value: T) -> (replaced: Option<T>)
        ensures
            final(self)@ == old(self)@.insert(key@, value),
            final(self)@.dom().finite(),
            match replaced {
                Some(v) => old(self)@.contains_key(key@) && old(self)@[key@] == v,
                None => !old(self)@.contains_key(key@),
            },
    {
        let replaced = self.remove(&key);
        proof {
            use_type_invariant(&*self);
            self.lemma_positions();
        }
        let ghost before = *self;
        let mut entries: Vec<Entry<T>> = Vec::new();
        core::mem::swap(&mut self.entries, &mut entries);
        entries.push(Entry { key, value });
        proof {
            let pushed = Table { entries };
            assert(pushed.keys() =~= before.keys().push(key@));
            assert(pushed.keys().no_duplicates());
        }
        self.entries = entries;
        proof {
            let keys = self.keys();
            let n = before.keys().len() as int;
            assert(keys =~= before.keys().push(key@));
            assert(self.values() =~= before.values().push(value));
            assert(keys.no_duplicates());
            self.lemma_positions();
            lemma_index_of_unique(keys, n);
            assert(self@.contains_key(key@) && self@[key@] == value);
            assert forall|k: Seq<char>| k != key@ && before@.contains_key(k) implies
                self@.contains_key(k) && self@[k] == before@[k] by {
                let i = before.keys().index_of(k);
                assert(keys[i] == k);
                lemma_index_of_unique(before.keys(), i);
                lemma_index_of_unique(keys, i);
            }
            assert forall|k: Seq<char>| k != key@ && self@.contains_key(k) implies
                before@.contains_key(k) by {
                let i = keys.index_of(k);
                assert(before.keys()[i] == k);
            }
            assert(self@ =~= before@.insert(key@, value));
            assert(before@.insert(key@, value) =~= old(self)@.insert(key@, value));
        }
        replaced
    }

    /// Takes `key` out of the table, handing back the value it held.
    pub fn remove(&mut self, key: &String) -> (removed: Option<T>)
        ensures
            final(self)@ == old(self)@.remove(key@),
            final(self)@.dom().finite(),
            match removed {
                Some(v) => old(self)@.contains_key(key@) && old(self)@[key@] == v,
                None => !old(self)@.contains_key(key@),
            },
    {
        proof {
            use_type_invariant(&*self);
            self.lemma_positions();
        }
        match self.position(key) {
            None => {
                assert(self@ =~= old(self)@.remove(key@));
                None
            },
            Some(i) => {
                let ghost before = *self;
                let mut entries: Vec<Entry<T>> = Vec::new();
                core::mem::swap(&mut self.entries, &mut entries);
                let entry = entries.remove(i);
                proof {
                    let shrunk = Table { entries };
                    assert(shrunk.keys() =~= before.keys().remove(i as int));
                    assert(shrunk.keys().no_duplicates());
                }
                self.entries = entries;
                proof {
                    let keys = self.keys();
                    assert(keys =~= before.keys().remove(i as int));
                    assert(self.values() =~= before.values().remove(i as int));
                    assert(keys.no_duplicates());
                    self.lemma_positions();
                    assert forall|k: Seq<char>| self@.contains_key(k) implies k != key@
                        && before@.contains_key(k) && self@[k] == before@[k] by {
                        let j = keys.index_of(k);
                        let j0 = if j < i { j } else { j + 1 };
                        assert(before.keys()[j0] == k);
                        lemma_index_of_unique(before.keys(), j0);
                        lemma_index_of_unique(keys, j);
                    }
                    assert forall|k: Seq<char>| k != key@ && before@.contains_key(k) implies
                        self@.contains_key(k) by {
                        let j0 = before.keys().index_of(k);
                        let j = if j0 < i { j0 } else { j0 - 1 };
                        assert(keys[j] == k);
                    }
                    assert(self@ =~= old(self)@.remove(key@));
                }
                Some(entry.value)
            },
        }
    }

    /// Empties the table.
    pub fn clear(&mut self)
        ensures
            final(self)@ == Map::<Seq<char>, T>::empty(),
    {
        self.entries = Vec::new();
        assert(self@ =~= Map::<Seq<char>, T>::empty());
    }
}

} // verus!
