//! A map from string keys to values, kept as two parallel vectors with no key
//! twice. Its view is a `Map` from the keys' texts to the values.
use vstd::prelude::*;

verus! {

/// Whether no two keys have the same text.
pub open spec fn distinct_keys(keys: Seq<String>) -> bool {
    forall|i: int, j: int| 0 <= i < keys.len() && 0 <= j < keys.len() && i != j ==> keys[i]@ != keys[j]@
}

/// Whether some key has the text `k`.
pub open spec fn has_key(keys: Seq<String>, k: Seq<char>) -> bool {
    exists|i: int| 0 <= i < keys.len() && #[trigger] keys[i]@ == k
}

/// The position of the key with text `k`.
pub open spec fn key_index(keys: Seq<String>, k: Seq<char>) -> int {
    choose|i: int| 0 <= i < keys.len() && #[trigger] keys[i]@ == k
}

/// The map that parallel `keys` and `values` stand for.
pub open spec fn map_of<V>(keys: Seq<String>, values: Seq<V>) -> Map<Seq<char>, V> {
    Map::new(|k: Seq<char>| has_key(keys, k), |k: Seq<char>| values[key_index(keys, k)])
}

/// Values keyed by text, with no key twice.
pub struct KeyedMap<V> {
    keys: Vec<String>,
    values: Vec<V>,
}

impl<V> KeyedMap<V> {
    /// The keys, in the order the map keeps them.
    pub closed spec fn key_seq(&self) -> Seq<String> {
        self.keys@
    }

    /// The values, in the order of their keys.
    pub closed spec fn value_seq(&self) -> Seq<V> {
        self.values@
    }

    /// The invariant: one value per key and no key twice.
    #[verifier::type_invariant]
    pub closed spec fn wf(&self) -> bool {
        &&& self.keys@.len() == self.values@.len()
        &&& distinct_keys(self.keys@)
    }

    /// The map from key texts to values.
    pub closed spec fn view(&self) -> Map<Seq<char>, V> {
        map_of(self.keys@, self.values@)
    }

    /// The kept order agrees with the map: the keys are distinct, there is
    /// one value per key, the keys' texts are the map's domain and each value
    /// is the map's value of its key.
    pub proof fn lemma_order_agrees(&self)
        requires
            self.wf(),
        ensures
            self.key_seq().len() == self.value_seq().len(),
            distinct_keys(self.key_seq()),
            forall|k: Seq<char>| self.view().contains_key(k) <==> has_key(self.key_seq(), k),
            forall|i: int|
                0 <= i < self.key_seq().len() ==> #[trigger] self.view()[self.key_seq()[i]@]
                    == self.value_seq()[i],
            self.view().dom().finite(),
            self.view().dom().len() == self.key_seq().len(),
    {
        assert forall|i: int| 0 <= i < self.key_seq().len() implies #[trigger] self.view()[self.key_seq()[i]@]
            == self.value_seq()[i] by {
            let k = self.keys@[i]@;
            assert(has_key(self.keys@, k));
            let j = key_index(self.keys@, k);
            assert(self.keys@[j]@ == k);
        }
        self.lemma_dom_finite();
        let texts = self.keys@.map_values(|k: String| k@);
        assert(texts.no_duplicates());
        assert(texts.to_set() =~= self.view().dom()) by {
            assert forall|k: Seq<char>| self.view().dom().contains(k) implies texts.to_set().contains(k) by {
                let j = key_index(self.keys@, k);
                assert(texts[j] == k);
            }
            assert forall|k: Seq<char>| texts.to_set().contains(k) implies self.view().dom().contains(k) by {
                let j = choose|j: int| 0 <= j < texts.len() && texts[j] == k;
                assert(self.keys@[j]@ == k);
            }
        }
        texts.unique_seq_to_set();
    }

    proof fn lemma_dom_finite(&self)
        ensures
            self.view().dom().finite(),
    {
        let f = |i: int| self.keys@[i]@;
        let s = Set::new(|i: int| 0 <= i < self.keys@.len());
        vstd::set_lib::lemma_int_range(0, self.keys@.len() as int);
        assert(s =~= vstd::set_lib::set_int_range(0, self.keys@.len() as int));
        assert(self.view().dom() =~= s.map(f)) by {
            assert forall|k: Seq<char>| self.view().dom().contains(k) implies s.map(f).contains(k) by {
                let j = key_index(self.keys@, k);
                assert(s.contains(j) && f(j) == k);
            }
        }
        s.lemma_map_finite(f);
    }

    /// The empty map.
    pub fn new() -> (r: Self)
        ensures
            r.view() == Map::<Seq<char>, V>::empty(),
            r.key_seq().len() == 0,
    {
        let r = KeyedMap { keys: Vec::new(), values: Vec::new() };
        assert(r.view() =~= Map::<Seq<char>, V>::empty());
        r
    }

    /// The number of keys.
    pub fn len(&self) -> (n: usize)
        ensures
            n == self.key_seq().len(),
    {
        self.keys.len()
    }

    /// The position of key `k`, if the map has it.
    pub fn find(&self, k: &str) -> (r: Option<usize>)
        ensures
            match r {
                Some(i) => i < self.key_seq().len() && self.key_seq()[i as int]@ == k@
                    && self.view().contains_key(k@),
                None => !self.view().contains_key(k@),
            },
    {
        let kk = String::from_str(k);
        let mut i: usize = 0;
        while i < self.keys.len()
            invariant
                kk@ == k@,
                i <= self.keys@.len(),
                forall|j: int| 0 <= j < i ==> self.keys@[j]@ != k@,
            decreases self.keys@.len() - i,
        {
            if self.keys[i] == kk {
                assert(has_key(self.keys@, k@));
                return Some(i);
            }
            i = i + 1;
        }
        None
    }

    /// The key at position `i`.
    pub fn key_at(&self, i: usize) -> (r: &String)
        requires
            i < self.key_seq().len(),
        ensures
            *r == self.key_seq()[i as int],
    {
        &self.keys[i]
    }

    /// The value at position `i`: the value of the key there.
    pub fn value_at(&self, i: usize) -> (r: &V)
        requires
            i < self.key_seq().len(),
        ensures
            *r == self.value_seq()[i as int],
            *r == self.view()[self.key_seq()[i as int]@],
    {
        proof {
            use_type_invariant(self);
            self.lemma_order_agrees();
        }
        &self.values[i]
    }

    /// The value of key `k`, if the map has it.
    pub fn get(&self, k: &str) -> (r: Option<&V>)
        ensures
            match r {
                Some(v) => self.view().contains_key(k@) && *v == self.view()[k@],
                None => !self.view().contains_key(k@),
            },
    {
        match self.find(k) {
            Some(i) => Some(self.value_at(i)),
            None => None,
        }
    }

    /// Whether the map has key `k`.
    pub fn contains_key(&self, k: &str) -> (b: bool)
        ensures
            b == self.view().contains_key(k@),
    {
        self.find(k).is_some()
    }

    /// Replaces the value at position `i`, keeping its key and position.
    pub fn set_at(&mut self, i: usize, v: V) -> (old_v: V)
        requires
            i < old(self).key_seq().len(),
        ensures
            final(self).key_seq() == old(self).key_seq(),
            final(self).value_seq() == old(self).value_seq().update(i as int, v),
            final(self).view() == old(self).view().insert(old(self).key_seq()[i as int]@, v),
            old_v == old(self).view()[old(self).key_seq()[i as int]@],
    {
        proof {
            use_type_invariant(&*self);
            self.lemma_order_agrees();
        }
        let ghost old_keys = self.keys@;
        let ghost old_view = self.view();
        let mut held = KeyedMap { keys: Vec::new(), values: Vec::new() };
        std::mem::swap(self, &mut held);
        proof {
            use_type_invariant(&held);
        }
        let KeyedMap { keys, mut values } = held;
        let mut v = v;
        values.set_and_swap(i, &mut v);
        let r = KeyedMap { keys, values };
        proof {
            let k = old_keys[i as int]@;
            assert(r.view() =~= old_view.insert(k, r.values@[i as int])) by {
                assert forall|kk: Seq<char>| #[trigger] r.view().contains_key(kk) implies r.view()[kk]
                    == old_view.insert(k, r.values@[i as int])[kk] by {
                    let j = key_index(r.keys@, kk);
                    if kk == k {
                        assert(r.keys@[i as int]@ == k);
                        assert(j == i);
                    } else {
                        assert(j != i);
                    }
                }
            }
        }
        *self = r;
        v
    }

    /// Sets the value of key `k`: in place where the map has the key (the old
    /// value is returned), else as a new last entry.
    pub fn insert(&mut self, k: String, v: V) -> (r: Option<V>)
        ensures
            final(self).view() == old(self).view().insert(k@, v),
            match r {
                Some(old_v) => old(self).view().contains_key(k@) && old_v == old(self).view()[k@]
                    && final(self).key_seq() == old(self).key_seq(),
                None => !old(self).view().contains_key(k@) && final(self).key_seq() == old(
                    self,
                ).key_seq().push(k) && final(self).value_seq() == old(self).value_seq().push(v),
            },
    {
        match self.find(k.as_str()) {
            Some(i) => {
                let old_v = self.set_at(i, v);
                Some(old_v)
            },
            None => {
                let ghost old_keys = self.keys@;
                let ghost old_view = self.view();
                let ghost kv = k@;
                let mut held = KeyedMap { keys: Vec::new(), values: Vec::new() };
                std::mem::swap(self, &mut held);
                proof {
                    use_type_invariant(&held);
                }
                let KeyedMap { mut keys, mut values } = held;
                keys.push(k);
                values.push(v);
                proof {
                    let n = old_keys.len() as int;
                    assert forall|a: int, b: int|
                        0 <= a < keys@.len() && 0 <= b < keys@.len() && a != b implies keys@[a]@
                        != keys@[b]@ by {
                        if a == n {
                            assert(old_keys[b]@ != kv);
                        } else if b == n {
                            assert(old_keys[a]@ != kv);
                        }
                    }
                    assert(map_of(keys@, values@) =~= old_view.insert(kv, v)) by {
                        assert forall|kk: Seq<char>| #[trigger] map_of(keys@, values@).contains_key(kk)
                            <==> old_view.insert(kv, v).contains_key(kk) by {
                            if kk != kv && has_key(keys@, kk) {
                                let j = key_index(keys@, kk);
                                assert(j != n);
                                assert(old_keys[j]@ == kk);
                            }
                            if kk != kv && has_key(old_keys, kk) {
                                let j = key_index(old_keys, kk);
                                assert(keys@[j]@ == kk);
                            }
                            if kk == kv {
                                assert(keys@[n]@ == kv);
                            }
                        }
                        assert forall|kk: Seq<char>| #[trigger] map_of(keys@, values@).contains_key(kk)
                            implies map_of(keys@, values@)[kk] == old_view.insert(kv, v)[kk] by {
                            let j = key_index(keys@, kk);
                            if kk == kv {
                                assert(keys@[n]@ == kv);
                                assert(j == n);
                            } else {
                                assert(j != n);
                                assert(old_keys[j]@ == kk);
                                let j2 = key_index(old_keys, kk);
                                assert(old_keys[j2]@ == kk);
                                assert(j == j2);
                            }
                        }
                    }
                }
                *self = KeyedMap { keys, values };
                None
            },
        }
    }
}

} // verus!
