use vstd::prelude::*;

verus! {

/// A map from strings to values.
pub struct StringMap<V> {
    keys: Vec<String>,
    values: Vec<V>,
}

/// Whether no two keys are the same string.
pub open spec fn keys_distinct(keys: Seq<String>) -> bool {
    forall|i: int, j: int|
        0 <= i < j < keys.len() ==> (#[trigger] keys[i])@ != (#[trigger] keys[j])@
}

/// Whether the key is among the keys.
pub open spec fn has_key(keys: Seq<String>, key: Seq<char>) -> bool {
    exists|i: int| 0 <= i < keys.len() && (#[trigger] keys[i])@ == key
}

/// The map that gives each key the value at the same place.
pub open spec fn zipped<V>(keys: Seq<String>, values: Seq<V>) -> Map<Seq<char>, V> {
    Map::new(
        |key: Seq<char>| has_key(keys, key),
        |key: Seq<char>| values[choose|i: int| 0 <= i < keys.len() && (#[trigger] keys[i])@ == key],
    )
}

impl<V> View for StringMap<V> {
    type V = Map<Seq<char>, V>;

    closed spec fn view(&self) -> Map<Seq<char>, V> {
        zipped(self.keys@, self.values@)
    }
}

impl<V> StringMap<V> {
    #[verifier::type_invariant]
    spec fn wf(&self) -> bool {
        keys_distinct(self.keys@) && self.keys@.len() == self.values@.len()
    }

    /// A map without entries.
    pub fn new() -> (map: StringMap<V>)
        ensures
            map@ == Map::<Seq<char>, V>::empty(),
    {
        let map = StringMap { keys: Vec::new(), values: Vec::new() };
        assert(map@ =~= Map::<Seq<char>, V>::empty());
        map
    }

    /// The place of the key among the keys.
    fn position(&self, key: &String) -> (position: Option<usize>)
        ensures
            match position {
                Some(i) => i < self.keys@.len() && self.keys@[i as int]@ == key@,
                None => !has_key(self.keys@, key@),
            },
    {
        let mut i: usize = 0;
        while i < self.keys.len()
            invariant
                i <= self.keys@.len(),
                forall|j: int| 0 <= j < i ==> (#[trigger] self.keys@[j])@ != key@,
            decreases self.keys@.len() - i,
        {
            if self.keys[i] == *key {
                return Some(i);
            }
            i = i + 1;
        }
        None
    }

    /// Whether the map has an entry with the key.
    pub fn contains_key(&self, key: &String) -> (found: bool)
        ensures
            found == self@.contains_key(key@),
    {
        self.position(key).is_some()
    }

    /// The value that belongs to the key.
    pub fn get(&self, key: &String) -> (value: Option<&V>)
        ensures
            match value {
                Some(value) => self@.contains_key(key@) && *value == self@[key@],
                None => !self@.contains_key(key@),
            },
    {
        proof {
            use_type_invariant(self);
        }
        match self.position(key) {
            Some(i) => {
                proof {
                    lemma_entry(self.keys@, self.values@, i as int);
                }
                Some(&self.values[i])
            },
            None => None,
        }
    }

    /// The value that belongs to the key, to be changed in place.
    pub fn get_mut(&mut self, key: &String) -> (value: Option<&mut V>)
        ensures
            match value {
                Some(value) => {
                    &&& old(self)@.contains_key(key@)
                    &&& *value == old(self)@[key@]
                    &&& final(self)@ == old(self)@.insert(key@, *final(value))
                },
                None => !old(self)@.contains_key(key@) && final(self)@ == old(self)@,
            },
    {
        proof {
            use_type_invariant(&*self);
        }
        match self.position(key) {
            Some(i) => {
                proof {
                    lemma_entry(self.keys@, self.values@, i as int);
                    assert forall|value: V| #[trigger] zipped(
                        self.keys@,
                        self.values@.update(i as int, value),
                    ) == self@.insert(key@, value) by {
                        lemma_update(self.keys@, self.values@, i as int, value);
                    }
                }
                Some(&mut self.values[i])
            },
            None => None,
        }
    }

    /// Puts the value under the key, and returns the value that was there before.
    pub fn insert(&mut self, key: String, value: V) -> (previous: Option<V>)
        ensures
            final(self)@ == old(self)@.insert(key@, value),
            previous == if old(self)@.contains_key(key@) {
                Some(old(self)@[key@])
            } else {
                None
            },
    {
        let previous = self.remove(&key);
        let mut map = StringMap::new();
        std::mem::swap(self, &mut map);
        proof {
            use_type_invariant(&map);
            assert(!map@.contains_key(key@));
            lemma_push(map.keys@, map.values@, key, value);
        }
        let mut keys = map.keys;
        let mut values = map.values;
        keys.push(key);
        values.push(value);
        *self = StringMap { keys, values };
        assert(self@ =~= old(self)@.insert(key@, value));
        previous
    }

    /// Takes the entry with the key out of the map, and returns its value.
    pub fn remove(&mut self, key: &String) -> (value: Option<V>)
        ensures
            final(self)@ == old(self)@.remove(key@),
            value == if old(self)@.contains_key(key@) {
                Some(old(self)@[key@])
            } else {
                None
            },
    {
        match self.position(key) {
            Some(i) => {
                let mut map = StringMap::new();
                std::mem::swap(self, &mut map);
                proof {
                    use_type_invariant(&map);
                    lemma_entry(map.keys@, map.values@, i as int);
                    lemma_remove(map.keys@, map.values@, i as int);
                }
                let mut keys = map.keys;
                let mut values = map.values;
                keys.remove(i);
                let value = values.remove(i);
                *self = StringMap { keys, values };
                Some(value)
            },
            None => {
                assert(self@ =~= old(self)@.remove(key@));
                None
            },
        }
    }

    /// The keys of the map, each once, and their values in the same order.
    pub fn parts(&self) -> (parts: (&Vec<String>, &Vec<V>))
        ensures
            keys_distinct(parts.0@),
            parts.0@.len() == parts.1@.len(),
            zipped(parts.0@, parts.1@) == self@,
    {
        proof {
            use_type_invariant(self);
        }
        (&self.keys, &self.values)
    }

    /// The keys of the map, each once, and their values in the same order.
    pub fn into_parts(self) -> (parts: (Vec<String>, Vec<V>))
        ensures
            keys_distinct(parts.0@),
            parts.0@.len() == parts.1@.len(),
            zipped(parts.0@, parts.1@) == self@,
    {
        proof {
            use_type_invariant(&self);
        }
        (self.keys, self.values)
    }
}

proof fn lemma_entry<V>(keys: Seq<String>, values: Seq<V>, i: int)
    requires
        keys_distinct(keys),
        0 <= i < keys.len(),
    ensures
        zipped(keys, values).contains_key(keys[i]@),
        zipped(keys, values)[keys[i]@] == values[i],
{
    let key = keys[i]@;
    let j = choose|j: int| 0 <= j < keys.len() && (#[trigger] keys[j])@ == key;
    assert(keys[i]@ == key);
    assert(i == j);
}

proof fn lemma_update<V>(keys: Seq<String>, values: Seq<V>, i: int, value: V)
    requires
        keys_distinct(keys),
        keys.len() == values.len(),
        0 <= i < keys.len(),
    ensures
        zipped(keys, values.update(i, value)) == zipped(keys, values).insert(keys[i]@, value),
{
    let updated = values.update(i, value);
    assert forall|key: Seq<char>| #[trigger] zipped(keys, updated).contains_key(key) implies zipped(
        keys,
        updated,
    )[key] == zipped(keys, values).insert(keys[i]@, value)[key] by {
        let j = choose|j: int| 0 <= j < keys.len() && (#[trigger] keys[j])@ == key;
        lemma_entry(keys, updated, j);
        lemma_entry(keys, values, j);
        if key == keys[i]@ {
            assert(i == j);
        }
    }
    assert(zipped(keys, updated) =~= zipped(keys, values).insert(keys[i]@, value));
}

proof fn lemma_push<V>(keys: Seq<String>, values: Seq<V>, key: String, value: V)
    requires
        keys_distinct(keys),
        keys.len() == values.len(),
        !has_key(keys, key@),
    ensures
        keys_distinct(keys.push(key)),
        zipped(keys.push(key), values.push(value)) == zipped(keys, values).insert(key@, value),
{
    let before = zipped(keys, values);
    let after = zipped(keys.push(key), values.push(value));
    assert forall|k: Seq<char>| before.insert(key@, value).contains_key(k) implies
        #[trigger] after.contains_key(k) && after[k] == before.insert(key@, value)[k] by {
        let i = if k == key@ {
            keys.len() as int
        } else {
            choose|i: int| 0 <= i < keys.len() && (#[trigger] keys[i])@ == k
        };
        assert(keys.push(key)[i]@ == k);
        lemma_entry(keys.push(key), values.push(value), i);
        if k != key@ {
            lemma_entry(keys, values, i);
        }
    }
    assert(after =~= before.insert(key@, value));
}

proof fn lemma_remove<V>(keys: Seq<String>, values: Seq<V>, position: int)
    requires
        keys_distinct(keys),
        keys.len() == values.len(),
        0 <= position < keys.len(),
    ensures
        keys_distinct(keys.remove(position)),
        zipped(keys.remove(position), values.remove(position)) == zipped(keys, values).remove(
            keys[position]@,
        ),
{
    let key = keys[position]@;
    let fewer = keys.remove(position);
    let before = zipped(keys, values);
    let after = zipped(fewer, values.remove(position));
    assert forall|k: Seq<char>| before.remove(key).contains_key(k) implies
        #[trigger] after.contains_key(k) && after[k] == before[k] by {
        let i = choose|i: int| 0 <= i < keys.len() && (#[trigger] keys[i])@ == k;
        let at = if i < position {
            i
        } else {
            i - 1
        };
        assert(fewer[at] == keys[i]);
        lemma_entry(keys, values, i);
        lemma_entry(fewer, values.remove(position), at);
    }
    assert forall|k: Seq<char>| #[trigger] after.contains_key(k) implies before.remove(
        key,
    ).contains_key(k) by {
        let i = choose|i: int| 0 <= i < fewer.len() && (#[trigger] fewer[i])@ == k;
        let from = if i < position {
            i
        } else {
            i + 1
        };
        assert(keys[from] == fewer[i]);
    }
    assert(after =~= before.remove(key));
}

} // verus!
