//! A small map from path strings to values that keeps its entries in the order
//! in which their keys first arrived.

use vstd::prelude::*;

verus! {

/// The index of the first entry of `keys` that equals `key`, or -1.
pub open spec fn spec_position(keys: Seq<Seq<char>>, key: Seq<char>) -> int
    decreases keys.len(),
{
    if keys.len() == 0 {
        -1
    } else if keys.last() == key {
        let earlier = spec_position(keys.drop_last(), key);
        if earlier >= 0 {
            earlier
        } else {
            keys.len() - 1
        }
    } else {
        spec_position(keys.drop_last(), key)
    }
}

/// `spec_position` finds a key exactly when the key occurs, and then at its
/// first occurrence.
pub proof fn lemma_position(keys: Seq<Seq<char>>, key: Seq<char>)
    ensures
        -1 <= spec_position(keys, key) < keys.len(),
        spec_position(keys, key) >= 0 ==> keys[spec_position(keys, key)] == key,
        spec_position(keys, key) < 0 ==> forall|i: int| 0 <= i < keys.len() ==> keys[i] != key,
        forall|i: int| 0 <= i < spec_position(keys, key) ==> keys[i] != key,
    decreases keys.len(),
{
    if keys.len() > 0 {
        lemma_position(keys.drop_last(), key);
        assert(forall|i: int|
            0 <= i < keys.len() - 1 ==> keys.drop_last()[i] == #[trigger] keys[i]);
    }
}

/// With distinct keys, the position of the key at index `i` is `i`.
pub proof fn lemma_position_of_index(keys: Seq<Seq<char>>, i: int)
    requires
        keys.no_duplicates(),
        0 <= i < keys.len(),
    ensures
        spec_position(keys, keys[i]) == i,
{
    lemma_position(keys, keys[i]);
}

/// A map from path strings to values of type `V`.
pub struct PathMap<V> {
    keys: Vec<String>,
    values: Vec<V>,
}

impl<V> PathMap<V> {
    /// The keys, in the order in which they first arrived.
    pub closed spec fn keys(&self) -> Seq<Seq<char>> {
        self.keys@.map_values(|k: String| k@)
    }

    /// The values, each at the index of its key.
    pub closed spec fn vals(&self) -> Seq<V> {
        self.values@
    }

    /// No key occurs twice and every key has a value.
    pub open spec fn wf(&self) -> bool {
        &&& self.keys().len() == self.vals().len()
        &&& self.keys().no_duplicates()
    }

    /// Whether `key` is present.
    pub open spec fn spec_contains(&self, key: Seq<char>) -> bool {
        spec_position(self.keys(), key) >= 0
    }

    /// The value stored under `key`; meaningful only where the key is present.
    pub open spec fn spec_value(&self, key: Seq<char>) -> V {
        self.vals()[spec_position(self.keys(), key)]
    }

    /// The map as a mathematical map.
    pub open spec fn view(&self) -> Map<Seq<char>, V> {
        Map::new(|k: Seq<char>| self.spec_contains(k), |k: Seq<char>| self.spec_value(k))
    }

    /// An empty map.
    pub fn new() -> (m: Self)
        ensures
            m.wf(),
            m.keys() == Seq::<Seq<char>>::empty(),
            m.vals() == Seq::<V>::empty(),
            m@ == Map::<Seq<char>, V>::empty(),
    {
        let m = PathMap { keys: Vec::new(), values: Vec::new() };
        assert(m.keys() =~= Seq::<Seq<char>>::empty());
        assert(m@ =~= Map::<Seq<char>, V>::empty());
        m
    }

    /// The number of entries.
    pub fn len(&self) -> (n: usize)
        requires
            self.wf(),
        ensures
            n == self.keys().len(),
            n == self.vals().len(),
    {
        self.keys.len()
    }

    /// The index of `key`, if it is present.
    pub fn position(&self, key: &String) -> (found: Option<usize>)
        requires
            self.wf(),
        ensures
            match found {
                Some(i) => i == spec_position(self.keys(), key@) && i < self.keys().len()
                    && self.keys()[i as int] == key@,
                None => spec_position(self.keys(), key@) < 0,
            },
    {
        let mut i: usize = 0;
        while i < self.keys.len()
            invariant
                i <= self.keys.len(),
                self.keys().len() == self.keys.len(),
                forall|j: int| 0 <= j < i ==> self.keys()[j] != key@,
            decreases self.keys.len() - i,
        {
            if self.keys[i] == *key {
                proof {
                    assert(self.keys()[i as int] == key@);
                    lemma_position(self.keys(), key@);
                }
                return Some(i);
            }
            i += 1;
        }
        proof {
            lemma_position(self.keys(), key@);
        }
        None
    }

    /// The key at index `i`.
    pub fn key_at(&self, i: usize) -> (key: &String)
        requires
            i < self.keys().len(),
        ensures
            key@ == self.keys()[i as int],
    {
        &self.keys[i]
    }

    /// The value at index `i`.
    pub fn value_at(&self, i: usize) -> (value: &V)
        requires
            i < self.vals().len(),
        ensures
            *value == self.vals()[i as int],
    {
        &self.values[i]
    }

    /// The value stored under `key`, if the key is present.
    pub fn get(&self, key: &String) -> (value: Option<&V>)
        requires
            self.wf(),
        ensures
            match value {
                Some(v) => self.spec_contains(key@) && *v == self.spec_value(key@),
                None => !self.spec_contains(key@),
            },
    {
        match self.position(key) {
            Some(i) => Some(&self.values[i]),
            None => None,
        }
    }

    /// Replaces the value at index `i`; the keys stay as they are.
    pub fn set_value_at(&mut self, i: usize, value: V)
        requires
            old(self).wf(),
            i < old(self).vals().len(),
        ensures
            final(self).wf(),
            final(self).keys() == old(self).keys(),
            final(self).vals() == old(self).vals().update(i as int, value),
    {
        self.values.set(i, value);
    }

    /// Stores `value` under `key`. A key that is present keeps its place and
    /// gets the new value; a new key goes to the end.
    pub fn insert(&mut self, key: String, value: V)
        requires
            old(self).wf(),
        ensures
            final(self).wf(),
            old(self).spec_contains(key@) ==> final(self).keys() == old(self).keys()
                && final(self).vals() == old(self).vals().update(
                spec_position(old(self).keys(), key@),
                value,
            ),
            !old(self).spec_contains(key@) ==> final(self).keys() == old(self).keys().push(key@)
                && final(self).vals() == old(self).vals().push(value),
            final(self)@ == old(self)@.insert(key@, value),
    {
        let ghost before = *self;
        match self.position(&key) {
            Some(i) => {
                self.values.set(i, value);
            },
            None => {
                self.keys.push(key);
                self.values.push(value);
                assert(self.keys() =~= before.keys().push(key@));
                assert(self.keys().no_duplicates()) by {
                    lemma_position(before.keys(), key@);
                }
            },
        }
        proof {
            lemma_insert_view(before, *self, key@, value);
        }
    }

    /// Takes `key` and its value out of the map. The other entries keep their
    /// order.
    pub fn remove(&mut self, key: &String) -> (taken: Option<V>)
        requires
            old(self).wf(),
        ensures
            final(self).wf(),
            match taken {
                Some(v) => old(self).spec_contains(key@) && v == old(self).spec_value(key@)
                    && final(self).keys() == old(self).keys().remove(
                    spec_position(old(self).keys(), key@),
                ) && final(self).vals() == old(self).vals().remove(
                    spec_position(old(self).keys(), key@),
                ),
                None => !old(self).spec_contains(key@) && final(self).keys() == old(self).keys()
                    && final(self).vals() == old(self).vals(),
            },
            final(self)@ == old(self)@.remove(key@),
    {
        let ghost before = *self;
        match self.position(key) {
            Some(i) => {
                self.keys.remove(i);
                let v = self.values.remove(i);
                assert(self.keys() =~= before.keys().remove(i as int));
                assert(self.keys().no_duplicates());
                proof {
                    lemma_remove_view(before, *self, key@);
                }
                Some(v)
            },
            None => {
                assert(self@ =~= before@.remove(key@));
                None
            },
        }
    }

    /// Empties the map.
    pub fn clear(&mut self)
        ensures
            final(self).wf(),
            final(self).keys() == Seq::<Seq<char>>::empty(),
            final(self).vals() == Seq::<V>::empty(),
            final(self)@ == Map::<Seq<char>, V>::empty(),
    {
        self.keys.clear();
        self.values.clear();
        assert(self.keys() =~= Seq::<Seq<char>>::empty());
        assert(self@ =~= Map::<Seq<char>, V>::empty());
    }
}

/// What `insert` does to the keys and values is an insertion into the map.
proof fn lemma_insert_view<V>(before: PathMap<V>, after: PathMap<V>, key: Seq<char>, value: V)
    requires
        before.wf(),
        before.spec_contains(key) ==> after.keys() == before.keys() && after.vals()
            == before.vals().update(spec_position(before.keys(), key), value),
        !before.spec_contains(key) ==> after.keys() == before.keys().push(key) && after.vals()
            == before.vals().push(value),
    ensures
        after@ == before@.insert(key, value),
{
    lemma_position(before.keys(), key);
    assert forall|k: Seq<char>| after.spec_contains(k) == (k == key || before.spec_contains(k))
        && (after.spec_contains(k) ==> after.spec_value(k) == (if k == key {
        value
    } else {
        before.spec_value(k)
    })) by {
        lemma_position(before.keys(), k);
        if !before.spec_contains(key) {
            assert(before.keys().push(key).drop_last() =~= before.keys());
        }
    }
    assert(after@ =~= before@.insert(key, value));
}

/// What `remove` does to the keys and values is a removal from the map.
proof fn lemma_remove_view<V>(before: PathMap<V>, after: PathMap<V>, key: Seq<char>)
    requires
        before.wf(),
        before.spec_contains(key),
        after.keys() == before.keys().remove(spec_position(before.keys(), key)),
        after.vals() == before.vals().remove(spec_position(before.keys(), key)),
    ensures
        after@ == before@.remove(key),
{
    let at = spec_position(before.keys(), key);
    lemma_position(before.keys(), key);
    assert forall|k: Seq<char>| after.spec_contains(k) == (k != key && before.spec_contains(k))
        && (after.spec_contains(k) ==> after.spec_value(k) == before.spec_value(k)) by {
        lemma_position(before.keys(), k);
        lemma_position(after.keys(), k);
        let p = spec_position(before.keys(), k);
        let q = spec_position(after.keys(), k);
        if q >= 0 {
            let back = if q < at {
                q
            } else {
                q + 1
            };
            assert(before.keys()[back] == k);
            lemma_position_of_index(before.keys(), back);
        }
        if p >= 0 && k != key {
            let forth = if p < at {
                p
            } else {
                p - 1
            };
            assert(after.keys()[forth] == k);
            lemma_position_of_index(after.keys(), forth);
        }
    }
    assert(after@ =~= before@.remove(key));
}

} // verus!
