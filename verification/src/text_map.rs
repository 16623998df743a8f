//! A small mapping from text keys to values, kept as a list of entries in
//! which no key occurs twice.

use vstd::prelude::*;

verus! {

/// The mapping that pairs `keys[i]` with `values[i]`.
pub open spec fn assoc<V>(keys: Seq<Seq<char>>, values: Seq<V>) -> Map<Seq<char>, V> {
    Map::new(|k: Seq<char>| keys.contains(k), |k: Seq<char>| values[keys.index_of(k)])
}

/// With distinct keys, the key at position `i` is mapped to the value at
/// position `i`.
pub proof fn lemma_assoc_at<V>(keys: Seq<Seq<char>>, values: Seq<V>, i: int)
    requires
        keys.no_duplicates(),
        0 <= i < keys.len(),
    ensures
        assoc(keys, values).contains_key(keys[i]),
        assoc(keys, values)[keys[i]] == values[i],
        keys.index_of(keys[i]) == i,
{
    assert(keys.contains(keys[i]));
}

/// With distinct keys, the mapping has exactly the keys of the list, each
/// counted once.
pub proof fn lemma_assoc_dom<V>(keys: Seq<Seq<char>>, values: Seq<V>)
    requires
        keys.no_duplicates(),
    ensures
        assoc(keys, values).dom() == keys.to_set(),
        assoc(keys, values).dom().finite(),
        assoc(keys, values).dom().len() == keys.len(),
{
    broadcast use vstd::seq_lib::seq_to_set_is_finite;

    assert(assoc(keys, values).dom() =~= keys.to_set());
    keys.unique_seq_to_set();
}

/// Appending a key that is not yet present extends the mapping by that key
/// and keeps the keys distinct.
pub proof fn lemma_assoc_push<V>(keys: Seq<Seq<char>>, values: Seq<V>, key: Seq<char>, value: V)
    requires
        keys.len() == values.len(),
        keys.no_duplicates(),
        !keys.contains(key),
    ensures
        keys.push(key).no_duplicates(),
        assoc(keys.push(key), values.push(value)) == assoc(keys, values).insert(key, value),
{
    let grown_keys = keys.push(key);
    let grown_values = values.push(value);
    let lhs = assoc(grown_keys, grown_values);
    let rhs = assoc(keys, values).insert(key, value);
    assert(grown_keys.no_duplicates()) by {
        assert forall|i: int, j: int|
            0 <= i < grown_keys.len() && 0 <= j < grown_keys.len() && i != j implies grown_keys[i]
            != grown_keys[j] by {
            if i < keys.len() {
                assert(keys[i] == grown_keys[i]);
            }
            if j < keys.len() {
                assert(keys[j] == grown_keys[j]);
            }
        }
    }
    assert forall|k: Seq<char>| lhs.contains_key(k) <==> rhs.contains_key(k) by {
        if keys.contains(k) {
            let i = keys.index_of(k);
            assert(grown_keys[i] == k);
        }
        if grown_keys.contains(k) && k != key {
            let i = grown_keys.index_of(k);
            assert(keys[i] == k);
        }
        assert(grown_keys[keys.len() as int] == key);
    }
    assert forall|k: Seq<char>| lhs.contains_key(k) implies lhs[k] == rhs[k] by {
        let i = grown_keys.index_of(k);
        lemma_assoc_at(grown_keys, grown_values, i);
        if k != key {
            assert(keys[i] == k);
            lemma_assoc_at(keys, values, i);
        }
    }
    assert(lhs =~= rhs);
}

/// Replacing the value at position `i` remaps the key at position `i` and
/// nothing else.
pub proof fn lemma_assoc_update<V>(keys: Seq<Seq<char>>, values: Seq<V>, i: int, value: V)
    requires
        keys.len() == values.len(),
        keys.no_duplicates(),
        0 <= i < keys.len(),
    ensures
        assoc(keys, values.update(i, value)) == assoc(keys, values).insert(keys[i], value),
{
    let lhs = assoc(keys, values.update(i, value));
    let rhs = assoc(keys, values).insert(keys[i], value);
    assert(keys.contains(keys[i]));
    assert forall|k: Seq<char>| lhs.contains_key(k) implies lhs[k] == rhs[k] by {
        let j = keys.index_of(k);
        lemma_assoc_at(keys, values, j);
        lemma_assoc_at(keys, values.update(i, value), j);
        lemma_assoc_at(keys, values, i);
    }
    assert(lhs =~= rhs);
}

#[derive(Debug)]
struct Entry<V> {
    key: String,
    value: V,
}

/// A mapping from text keys to values of type `V`.
///
/// The entries are kept in the order in which their keys first arrived; a
/// key is held by at most one entry.
#[derive(Debug)]
pub struct TextMap<V> {
    entries: Vec<Entry<V>>,
}

impl<V> TextMap<V> {
    /// No key is held by two entries.
    #[verifier::type_invariant]
    pub open spec fn keys_are_distinct(&self) -> bool {
        self.keys().no_duplicates()
    }

    /// The keys, in the order of their entries.
    pub closed spec fn keys(&self) -> Seq<Seq<char>> {
        Seq::new(self.entries@.len(), |i: int| self.entries@[i].key@)
    }

    /// The values, in the order of their entries.
    pub closed spec fn values(&self) -> Seq<V> {
        Seq::new(self.entries@.len(), |i: int| self.entries@[i].value)
    }

    /// The mapping that the entries stand for.
    pub open spec fn map(&self) -> Map<Seq<char>, V> {
        assoc(self.keys(), self.values())
    }

    /// There are as many values as keys.
    pub proof fn lemma_same_length(&self)
        ensures
            self.keys().len() == self.values().len(),
    {
    }

    /// An empty mapping.
    pub fn new() -> (m: Self)
        ensures
            m.keys() == Seq::<Seq<char>>::empty(),
            m.values() == Seq::<V>::empty(),
            m.map() == Map::<Seq<char>, V>::empty(),
    {
        let m = TextMap { entries: Vec::new() };
        assert(m.keys() =~= Seq::<Seq<char>>::empty());
        assert(m.values() =~= Seq::<V>::empty());
        assert(m.map() =~= Map::<Seq<char>, V>::empty());
        m
    }

    /// The number of entries, which is the number of keys that are mapped.
    pub fn len(&self) -> (n: usize)
        ensures
            n == self.keys().len(),
            n == self.values().len(),
            self.keys().no_duplicates(),
            self.map().dom().finite(),
            n == self.map().dom().len(),
    {
        proof {
            use_type_invariant(self);
            lemma_assoc_dom(self.keys(), self.values());
        }
        self.entries.len()
    }

    /// The key of the entry at position `i`.
    pub fn key_at(&self, i: usize) -> (k: &String)
        requires
            i < self.keys().len(),
        ensures
            k@ == self.keys()[i as int],
            self.map().contains_key(k@),
    {
        proof {
            use_type_invariant(self);
            lemma_assoc_at(self.keys(), self.values(), i as int);
        }
        &self.entries[i].key
    }

    /// The value of the entry at position `i`.
    pub fn value_at(&self, i: usize) -> (v: &V)
        requires
            i < self.keys().len(),
        ensures
            *v == self.values()[i as int],
            *v == self.map()[self.keys()[i as int]],
    {
        proof {
            use_type_invariant(self);
            lemma_assoc_at(self.keys(), self.values(), i as int);
        }
        &self.entries[i].value
    }

    /// The position of the entry that holds `key`, if there is one.
    pub fn position(&self, key: &str) -> (r: Option<usize>)
        ensures
            match r {
                Some(i) => i < self.keys().len() && self.keys()[i as int] == key@
                    && self.keys().index_of(key@) == i,
                None => !self.keys().contains(key@),
            },
    {
        proof {
            use_type_invariant(self);
        }
        let wanted = String::from_str(key);
        let mut i: usize = 0;
        while i < self.entries.len()
            invariant
                i <= self.entries@.len(),
                wanted@ == key@,
                self.keys().no_duplicates(),
                forall|j: int| 0 <= j < i ==> self.keys()[j] != key@,
            decreases self.entries@.len() - i,
        {
            if self.entries[i].key == wanted {
                proof {
                    lemma_assoc_at(self.keys(), self.values(), i as int);
                }
                return Some(i);
            }
            i += 1;
        }
        None
    }

    /// Whether `key` is mapped.
    pub fn contains_key(&self, key: &str) -> (found: bool)
        ensures
            found == self.map().contains_key(key@),
    {
        self.position(key).is_some()
    }

    /// The value that `key` is mapped to, if it is mapped.
    pub fn get(&self, key: &str) -> (r: Option<&V>)
        ensures
            match r {
                Some(v) => self.map().contains_key(key@) && *v == self.map()[key@],
                None => !self.map().contains_key(key@),
            },
    {
        match self.position(key) {
            Some(i) => Some(&self.entries[i].value),
            None => None,
        }
    }

    /// Maps `key` to `value`, replacing what `key` was mapped to before.
    ///
    /// A key that was present keeps its position; a new key goes to the end.
    pub fn insert(&mut self, key: String, value: V)
        ensures
            final(self).map() == old(self).map().insert(key@, value),
            old(self).keys().contains(key@) ==> final(self).keys() == old(self).keys()
                && final(self).values() == old(self).values().update(
                old(self).keys().index_of(key@),
                value,
            ),
            !old(self).keys().contains(key@) ==> final(self).keys() == old(self).keys().push(key@)
                && final(self).values() == old(self).values().push(value),
    {
        proof {
            use_type_invariant(&*self);
        }
        let ghost keys = self.keys();
        let ghost values = self.values();
        let found = self.position(key.as_str());
        // The list is taken out while it changes, so that `self` is never
        // seen half-updated.
        let mut entries: Vec<Entry<V>> = Vec::new();
        core::mem::swap(&mut self.entries, &mut entries);
        match found {
            Some(i) => {
                proof {
                    lemma_assoc_update(keys, values, i as int, value);
                }
                entries.set(i, Entry { key, value });
            },
            None => {
                proof {
                    lemma_assoc_push(keys, values, key@, value);
                }
                entries.push(Entry { key, value });
            },
        }
        proof {
            let after = TextMap { entries };
            if found is Some {
                assert(after.keys() =~= keys);
                assert(after.values() =~= values.update(found->0 as int, value));
            } else {
                assert(after.keys() =~= keys.push(key@));
                assert(after.values() =~= values.push(value));
            }
        }
        core::mem::swap(&mut self.entries, &mut entries);
    }
}

} // verus!
