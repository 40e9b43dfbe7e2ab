//! A small map from strings to values, kept in the order of first insertion.

use vstd::prelude::*;

verus! {

/// A map keyed by strings.
///
/// It is modelled by the sequence of its keys, each taken as its sequence of
/// characters, and the sequence of its values, in the order in which keys
/// first came in; its view is the `Map` from each key to the value at the same
/// place. No key occurs twice.
pub struct Dictionary<V> {
    keys: Vec<String>,
    values: Vec<V>,
}

impl<V> Dictionary<V> {
    /// The keys, in the order in which they were first inserted.
    pub closed spec fn keys(&self) -> Seq<Seq<char>> {
        self.keys@.map_values(|k: String| k@)
    }

    /// The values, each at the place of its key.
    pub closed spec fn values(&self) -> Seq<V> {
        self.values@
    }

    /// Each key has one value and occurs once.
    pub open spec fn wf(&self) -> bool {
        &&& self.keys().len() == self.values().len()
        &&& self.keys().no_duplicates()
    }

    /// The map from each key to its value.
    pub open spec fn view(&self) -> Map<Seq<char>, V> {
        Map::new(
            |k: Seq<char>| self.keys().contains(k),
            |k: Seq<char>| self.values()[self.keys().index_of(k)],
        )
    }

    /// The value under `key`, if the key is there.
    pub open spec fn lookup(&self, key: Seq<char>) -> Option<V> {
        if self@.contains_key(key) {
            Some(self@[key])
        } else {
            None
        }
    }

    /// The key at each place maps to the value at that place, and the map has
    /// as many keys as the sequence.
    pub proof fn lemma_places(&self)
        requires
            self.wf(),
        ensures
            forall|i: int|
                0 <= i < self.keys().len() ==> self@.contains_key(#[trigger] self.keys()[i])
                    && self@[self.keys()[i]] == self.values()[i],
            forall|k: Seq<char>| #[trigger]
                self@.contains_key(k) ==> 0 <= self.keys().index_of(k) < self.keys().len()
                    && self.keys()[self.keys().index_of(k)] == k,
            self@.dom() =~= self.keys().to_set(),
            self@.dom().finite(),
            self@.len() == self.keys().len(),
            self@.values() =~= self.values().to_set(),
    {
        let keys = self.keys();
        assert forall|i: int| 0 <= i < keys.len() implies self@.contains_key(#[trigger] keys[i])
            && self@[keys[i]] == self.values()[i] by {
            assert(keys.contains(keys[i]));
            let j = keys.index_of(keys[i]);
            assert(0 <= j < keys.len() && keys[j] == keys[i]);
        }
        assert(self@.dom() =~= keys.to_set());
        keys.unique_seq_to_set();
        assert forall|v: V| self.values().to_set().contains(v) implies self@.values().contains(
            v,
        ) by {
            let i = choose|i: int| 0 <= i < self.values().len() && self.values()[i] == v;
            assert(self@.contains_key(keys[i]) && self@[keys[i]] == v);
        }
        assert forall|v: V| self@.values().contains(v) implies self.values().to_set().contains(
            v,
        ) by {
            let k = choose|k: Seq<char>| self@.contains_key(k) && self@[k] == v;
            assert(self.values()[keys.index_of(k)] == v);
        }
    }

    /// An empty dictionary.
    pub fn new() -> (r: Dictionary<V>)
        ensures
            r.wf(),
            r.keys() =~= Seq::<Seq<char>>::empty(),
            r.values() =~= Seq::<V>::empty(),
            r@ =~= Map::<Seq<char>, V>::empty(),
    {
        Dictionary { keys: Vec::new(), values: Vec::new() }
    }

    /// The number of keys.
    pub fn len(&self) -> (r: usize)
        requires
            self.wf(),
        ensures
            r == self.keys().len(),
            r == self@.len(),
    {
        proof {
            self.lemma_places();
        }
        self.keys.len()
    }

    /// The place of `key` among the keys, if it is there.
    pub fn position(&self, key: &str) -> (r: Option<usize>)
        requires
            self.wf(),
        ensures
            match r {
                Some(i) => i < self.keys().len() && self.keys()[i as int] == key@,
                None => !self.keys().contains(key@),
            },
    {
        let wanted: String = key.to_owned();
        let mut i: usize = 0;
        while i < self.keys.len()
            invariant
                i <= self.keys.len(),
                wanted@ == key@,
                forall|j: int| 0 <= j < i ==> self.keys()[j] != key@,
            decreases self.keys.len() - i,
        {
            if self.keys[i] == wanted {
                return Some(i);
            }
            i += 1;
        }
        None
    }

    /// Whether `key` is there.
    pub fn contains_key(&self, key: &str) -> (r: bool)
        requires
            self.wf(),
        ensures
            r == self@.contains_key(key@),
    {
        self.position(key).is_some()
    }

    /// The value under `key`, if the key is there.
    pub fn get(&self, key: &str) -> (r: Option<&V>)
        requires
            self.wf(),
        ensures
            match r {
                Some(v) => self.lookup(key@) == Some(*v),
                None => self.lookup(key@) is None,
            },
    {
        proof {
            self.lemma_places();
        }
        match self.position(key) {
            Some(i) => Some(&self.values[i]),
            None => None,
        }
    }

    /// The key at place `i`.
    pub fn key_at(&self, i: usize) -> (r: &str)
        requires
            self.wf(),
            i < self.keys().len(),
        ensures
            r@ == self.keys()[i as int],
    {
        self.keys[i].as_str()
    }

    /// The value at place `i`.
    pub fn value_at(&self, i: usize) -> (r: &V)
        requires
            self.wf(),
            i < self.keys().len(),
        ensures
            *r == self.values()[i as int],
    {
        &self.values[i]
    }

    /// Puts `value` under `key` and hands back the value that was there. A
    /// key that is there keeps its place; a new one goes to the end.
    pub fn insert(&mut self, key: &str, value: V) -> (r: Option<V>)
        requires
            old(self).wf(),
        ensures
            final(self).wf(),
            final(self)@ == old(self)@.insert(key@, value),
            r == old(self).lookup(key@),
            old(self)@.contains_key(key@) ==> final(self).keys() == old(self).keys()
                && final(self).values() == old(self).values().update(
                old(self).keys().index_of(key@),
                value,
            ),
            !old(self)@.contains_key(key@) ==> final(self).keys() == old(self).keys().push(key@)
                && final(self).values() == old(self).values().push(value),
    {
        proof {
            self.lemma_places();
        }
        match self.position(key) {
            Some(i) => {
                let mut value = value;
                std::mem::swap(&mut value, &mut self.values[i]);
                proof {
                    self.lemma_places();
                    assert(self@ =~= old(self)@.insert(key@, self.values()[i as int]));
                }
                Some(value)
            },
            None => {
                self.keys.push(key.to_owned());
                self.values.push(value);
                proof {
                    assert(self.keys() =~= old(self).keys().push(key@));
                    self.lemma_places();
                    let last = old(self).keys().len() as int;
                    assert(self.keys()[last] == key@ && self.values()[last] == value);
                    assert forall|k: Seq<char>| #[trigger]
                        old(self)@.contains_key(k) implies self@.contains_key(k) && self@[k]
                        == old(self)@[k] by {
                        let j = old(self).keys().index_of(k);
                        assert(self.keys()[j] == k);
                    }
                    assert forall|k: Seq<char>| #[trigger]
                        self@.contains_key(k) && k != key@ implies old(self)@.contains_key(k) by {
                        let j = self.keys().index_of(k);
                        assert(old(self).keys()[j] == k);
                    }
                    assert(self@ =~= old(self)@.insert(key@, value));
                }
                None
            },
        }
    }

    /// Takes out the key at place `i` with its value; the others keep their order.
    pub fn remove_at(&mut self, i: usize) -> (r: (String, V))
        requires
            old(self).wf(),
            i < old(self).keys().len(),
        ensures
            final(self).wf(),
            r.0@ == old(self).keys()[i as int],
            r.1 == old(self).values()[i as int],
            final(self).keys() == old(self).keys().remove(i as int),
            final(self).values() == old(self).values().remove(i as int),
            final(self)@ == old(self)@.remove(old(self).keys()[i as int]),
    {
        let key = self.keys.remove(i);
        let value = self.values.remove(i);
        proof {
            let before = old(self).keys();
            let after = self.keys();
            assert(after =~= before.remove(i as int));
            assert forall|a: int, b: int| 0 <= a < after.len() && 0 <= b < after.len() && a
                != b implies after[a] != after[b] by {
                let x = if a < i { a } else { a + 1 };
                let y = if b < i { b } else { b + 1 };
                assert(after[a] == before[x] && after[b] == before[y]);
            }
            old(self).lemma_places();
            self.lemma_places();
            assert forall|k: Seq<char>| #[trigger]
                self@.contains_key(k) implies old(self)@.contains_key(k) && k != before[i as int]
                && self@[k] == old(self)@[k] by {
                let j = after.index_of(k);
                let x = if j < i { j } else { j + 1 };
                assert(before[x] == k);
            }
            assert forall|k: Seq<char>| #[trigger]
                old(self)@.contains_key(k) && k != before[i as int] implies self@.contains_key(
                k,
            ) by {
                let x = before.index_of(k);
                let j = if x < i { x } else { x - 1 };
                assert(after[j] == k);
            }
            assert(self@ =~= old(self)@.remove(before[i as int]));
        }
        (key, value)
    }

    /// Takes out `key` and hands back the value that was under it; the other
    /// keys keep their order.
    pub fn remove(&mut self, key: &str) -> (r: Option<V>)
        requires
            old(self).wf(),
        ensures
            final(self).wf(),
            final(self)@ == old(self)@.remove(key@),
            r == old(self).lookup(key@),
            old(self)@.contains_key(key@) ==> final(self).keys() == old(self).keys().remove(
                old(self).keys().index_of(key@),
            ) && final(self).values() == old(self).values().remove(
                old(self).keys().index_of(key@),
            ),
            !old(self)@.contains_key(key@) ==> final(self).keys() == old(self).keys()
                && final(self).values() == old(self).values(),
    {
        proof {
            self.lemma_places();
        }
        match self.position(key) {
            Some(i) => {
                let (_, value) = self.remove_at(i);
                Some(value)
            },
            None => {
                proof {
                    assert(self@ =~= old(self)@.remove(key@));
                }
                None
            },
        }
    }
}

} // verus!
