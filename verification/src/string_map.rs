//! A map keyed by strings, kept as two lists of equal length in which no key
//! occurs twice.
use vstd::prelude::*;
use crate::text::str_eq;

verus! {

/// The map that a list of distinct keys and a list of values stand for: each
/// key is bound to the value at its own position.
pub open spec fn map_of<W>(keys: Seq<Seq<char>>, values: Seq<W>) -> Map<Seq<char>, W> {
    Map::new(|k: Seq<char>| keys.contains(k), |k: Seq<char>| values[keys.index_of(k)])
}

/// In a list without repeated entries, an entry is found at its own index.
pub proof fn lemma_index_of_unique(keys: Seq<Seq<char>>, i: int)
    requires
        keys.no_duplicates(),
        0 <= i < keys.len(),
    ensures
        keys.contains(keys[i]),
        keys.index_of(keys[i]) == i,
{
    assert(keys.contains(keys[i]));
    let j = keys.index_of(keys[i]);
    assert(0 <= j < keys.len() && keys[j] == keys[i]);
}

/// Appending a new key with its value binds the key and changes no other
/// binding.
pub proof fn lemma_map_of_push<W>(keys: Seq<Seq<char>>, values: Seq<W>, key: Seq<char>, value: W)
    requires
        keys.no_duplicates(),
        keys.len() == values.len(),
        !keys.contains(key),
    ensures
        keys.push(key).no_duplicates(),
        map_of(keys.push(key), values.push(value)) == map_of(keys, values).insert(key, value),
{
    let keys2 = keys.push(key);
    let values2 = values.push(value);
    assert forall|i: int, j: int|
        0 <= i < keys2.len() && 0 <= j < keys2.len() && i != j implies keys2[i] != keys2[j] by {
        if i < keys.len() && j < keys.len() {
        } else if i < keys.len() {
            assert(keys.contains(keys[i]));
        } else {
            assert(keys.contains(keys[j]));
        }
    }
    let a = map_of(keys2, values2);
    let b = map_of(keys, values).insert(key, value);
    assert forall|k: Seq<char>| a.dom().contains(k) <==> b.dom().contains(k) by {
        if keys2.contains(k) {
            let i = choose|i: int| 0 <= i < keys2.len() && keys2[i] == k;
            if i < keys.len() {
                assert(keys[i] == k);
            }
        }
        if keys.contains(k) {
            let i = choose|i: int| 0 <= i < keys.len() && keys[i] == k;
            assert(keys2[i] == k);
        }
        if k == key {
            assert(keys2[keys.len() as int] == k);
        }
    }
    assert forall|k: Seq<char>| a.dom().contains(k) implies a[k] == b[k] by {
        let i = choose|i: int| 0 <= i < keys2.len() && keys2[i] == k;
        lemma_index_of_unique(keys2, i);
        if i < keys.len() {
            lemma_index_of_unique(keys, i);
        }
    }
    assert(a =~= b);
}

/// Replacing the value at a key's position rebinds the key and changes no
/// other binding.
pub proof fn lemma_map_of_update<W>(keys: Seq<Seq<char>>, values: Seq<W>, i: int, value: W)
    requires
        keys.no_duplicates(),
        keys.len() == values.len(),
        0 <= i < keys.len(),
    ensures
        map_of(keys, values.update(i, value)) == map_of(keys, values).insert(keys[i], value),
{
    let a = map_of(keys, values.update(i, value));
    let b = map_of(keys, values).insert(keys[i], value);
    assert(keys.contains(keys[i]));
    assert forall|k: Seq<char>| a.dom().contains(k) implies a[k] == b[k] by {
        let j = choose|j: int| 0 <= j < keys.len() && keys[j] == k;
        lemma_index_of_unique(keys, j);
    }
    assert(a =~= b);
}

/// A map from strings to values.
pub struct StringMap<V> {
    keys: Vec<String>,
    values: Vec<V>,
}

impl<V: DeepView> DeepView for StringMap<V> {
    type V = Map<Seq<char>, V::V>;

    closed spec fn deep_view(&self) -> Map<Seq<char>, V::V> {
        map_of(self.keys.deep_view(), self.values.deep_view())
    }
}

/// Index of the key in the list, or the length of the list.
fn position_of_key(keys: &Vec<String>, key: &str) -> (i: usize)
    ensures
        i <= keys.len(),
        forall|k: int| 0 <= k < i ==> #[trigger] keys.deep_view()[k] != key@,
        i < keys.len() ==> keys.deep_view()[i as int] == key@,
        i == keys.len() ==> !keys.deep_view().contains(key@),
{
    let mut i: usize = 0;
    while i < keys.len() && !str_eq(keys[i].as_str(), key)
        invariant
            i <= keys.len(),
            forall|k: int| 0 <= k < i ==> #[trigger] keys.deep_view()[k] != key@,
        decreases keys.len() - i,
    {
        i += 1;
    }
    i
}

impl<V> StringMap<V> {
    #[verifier::type_invariant]
    spec fn valid(self) -> bool {
        self.keys.deep_view().no_duplicates() && self.keys.len() == self.values.len()
    }
}

impl<V: DeepView> StringMap<V> {
    /// Creates an empty map.
    pub fn new() -> (m: StringMap<V>)
        ensures
            m.deep_view() == Map::<Seq<char>, V::V>::empty(),
    {
        let m = StringMap { keys: Vec::new(), values: Vec::new() };
        assert(m.deep_view() =~= Map::<Seq<char>, V::V>::empty());
        m
    }

    /// Whether the key is bound.
    pub fn contains_key(&self, key: &str) -> (r: bool)
        ensures
            r == self.deep_view().dom().contains(key@),
    {
        let i = position_of_key(&self.keys, key);
        proof {
            if i < self.keys.len() {
                assert(self.keys.deep_view().contains(key@));
            }
        }
        i < self.keys.len()
    }

    /// The value bound to the key, if it is bound.
    pub fn get(&self, key: &str) -> (r: Option<&V>)
        ensures
            r.deep_view() == if self.deep_view().dom().contains(key@) {
                Some(self.deep_view()[key@])
            } else {
                None
            },
    {
        proof {
            use_type_invariant(self);
        }
        let i = position_of_key(&self.keys, key);
        if i < self.keys.len() {
            proof {
                lemma_index_of_unique(self.keys.deep_view(), i as int);
            }
            Some(&self.values[i])
        } else {
            None
        }
    }

    /// Binds the key to the value, in place of any value it was bound to.
    pub fn insert(&mut self, key: String, value: V)
        ensures
            final(self).deep_view() == old(self).deep_view().insert(key@, value.deep_view()),
    {
        proof {
            use_type_invariant(&*self);
        }
        let ghost keys0 = self.keys.deep_view();
        let ghost values0 = self.values.deep_view();
        let i = position_of_key(&self.keys, key.as_str());
        let mut taken: StringMap<V> = StringMap::new();
        core::mem::swap(self, &mut taken);
        let StringMap { mut keys, mut values } = taken;
        if i < keys.len() {
            values.set(i, value);
            assert(values.deep_view() =~= values0.update(i as int, value.deep_view()));
            proof {
                lemma_map_of_update(keys0, values0, i as int, value.deep_view());
            }
        } else {
            proof {
                lemma_map_of_push(keys0, values0, key@, value.deep_view());
            }
            keys.push(key);
            values.push(value);
            assert(keys.deep_view() =~= keys0.push(key@));
            assert(values.deep_view() =~= values0.push(value.deep_view()));
        }
        *self = StringMap { keys, values };
    }

    /// Removes every binding.
    pub fn clear(&mut self)
        ensures
            final(self).deep_view() == Map::<Seq<char>, V::V>::empty(),
    {
        *self = StringMap::new();
    }

    /// Whether no key is bound.
    pub fn is_empty(&self) -> (r: bool)
        ensures
            r == (self.deep_view() == Map::<Seq<char>, V::V>::empty()),
    {
        proof {
            use_type_invariant(self);
            let keys = self.keys.deep_view();
            if keys.len() > 0 {
                assert(keys.contains(keys[0]));
                assert(self.deep_view().dom().contains(keys[0]));
            } else {
                assert(self.deep_view() =~= Map::<Seq<char>, V::V>::empty());
            }
        }
        self.keys.len() == 0
    }

    /// The number of bindings.
    pub fn len(&self) -> (n: usize)
        ensures
            n == self.deep_view().dom().len(),
            self.deep_view().dom().finite(),
    {
        proof {
            use_type_invariant(self);
            let keys = self.keys.deep_view();
            keys.unique_seq_to_set();
            assert(self.deep_view().dom() =~= keys.to_set());
        }
        self.keys.len()
    }
}

} // verus!
