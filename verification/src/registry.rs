use vstd::prelude::*;
use vstd::string::*;

verus! {

broadcast use vstd::string::group_string_axioms;

/// A value kept under a text key.
pub struct Entry<V> {
    pub key: String,
    pub value: V,
}

/// Values kept under text keys, at most one per key, as a `HashMap<String, V>` keeps them.
pub struct Registry<V> {
    pending: Vec<Entry<V>>,
}

impl<V> Registry<V> {
    /// No key is kept twice.
    #[verifier::type_invariant]
    closed spec fn ids_distinct(self) -> bool {
        forall|i: int, j: int|
            0 <= i < self.pending@.len() && 0 <= j < self.pending@.len() && i != j
                ==> #[trigger] self.pending@[i].key@ != #[trigger] self.pending@[j].key@
    }

    /// Each key, with the value kept under it.
    pub closed spec fn view(self) -> Map<Seq<char>, V> {
        Map::new(
            |k: Seq<char>| exists|i: int| 0 <= i < self.pending@.len() && #[trigger] self.pending@[i].key@ == k,
            |k: Seq<char>|
                self.pending@[choose|i: int| 0 <= i < self.pending@.len() && #[trigger] self.pending@[i].key@ == k].value,
        )
    }

    proof fn lemma_entry(self, i: int)
        requires
            self.ids_distinct(),
            0 <= i < self.pending@.len(),
        ensures
            self.view().contains_key(self.pending@[i].key@),
            self.view()[self.pending@[i].key@] == self.pending@[i].value,
    {
        let k = self.pending@[i].key@;
        assert(self.view().contains_key(k));
        let j = choose|j: int| 0 <= j < self.pending@.len() && #[trigger] self.pending@[j].key@ == k;
        assert(i == j);
    }

    /// Nothing is kept.
    pub fn new() -> (s: Self)
        ensures
            s@ == Map::<Seq<char>, V>::empty(),
    {
        let s = Registry { pending: Vec::new() };
        assert(s@ =~= Map::<Seq<char>, V>::empty());
        s
    }

    fn position(&self, key: &String) -> (r: Option<usize>)
        ensures
            r matches Some(i) ==> i < self.pending@.len() && self.pending@[i as int].key@
                == key@,
            r is None ==> !self@.contains_key(key@),
    {
        let mut i: usize = 0;
        while i < self.pending.len()
            invariant
                i <= self.pending@.len(),
                forall|j: int| 0 <= j < i ==> self.pending@[j].key@ != key@,
            decreases self.pending@.len() - i,
        {
            if self.pending[i].key == *key {
                return Some(i);
            }
            i = i + 1;
        }
        None
    }

    /// Keeps `value` under `key`. A value that was kept under the same key is
    /// displaced and handed back (`HashMap::insert`).
    pub fn register(&mut self, key: String, value: V) -> (displaced: Option<V>)
        ensures
            final(self)@ == old(self)@.insert(key@, value),
            displaced == (if old(self)@.contains_key(key@) {
                Some(old(self)@[key@])
            } else {
                None
            }),
    {
        proof {
            use_type_invariant(&*self);
        }
        let ghost wanted = key@;
        let ghost before = *self;
        match self.position(&key) {
            Some(i) => {
                proof {
                    before.lemma_entry(i as int);
                }
                let mut pending = Vec::new();
                std::mem::swap(&mut pending, &mut self.pending);
                pending.push(Entry { key, value });
                let old_entry = pending.swap_remove(i);
                self.pending = pending;
                proof {
                    assert(self.pending@ =~= before.pending@.update(
                        i as int,
                        Entry { key: self.pending@[i as int].key, value },
                    ));
                    assert forall|a: int, b: int|
                        0 <= a < self.pending@.len() && 0 <= b < self.pending@.len() && a != b
                        implies #[trigger] self.pending@[a].key@
                        != #[trigger] self.pending@[b].key@ by {
                        if a != i && b != i {
                            assert(self.pending@[a] == before.pending@[a]);
                            assert(self.pending@[b] == before.pending@[b]);
                        } else if a == i {
                            assert(self.pending@[b] == before.pending@[b]);
                        } else {
                            assert(self.pending@[a] == before.pending@[a]);
                        }
                    }
                    assert(self.ids_distinct());
                    assert forall|k: Seq<char>| #[trigger] self@.contains_key(k) <==> before@.insert(wanted, value).contains_key(k) by {
                        if self@.contains_key(k) {
                            let j = choose|j: int| 0 <= j < self.pending@.len() && #[trigger] self.pending@[j].key@ == k;
                            if j != i {
                                assert(self.pending@[j] == before.pending@[j]);
                            }
                        }
                        if before@.contains_key(k) {
                            let j = choose|j: int| 0 <= j < before.pending@.len() && #[trigger] before.pending@[j].key@ == k;
                            if j != i {
                                assert(self.pending@[j] == before.pending@[j]);
                            }
                        }
                    }
                    assert forall|k: Seq<char>| #[trigger] self@.contains_key(k) implies self@[k] == before@.insert(wanted, value)[k] by {
                        let j = choose|j: int| 0 <= j < self.pending@.len() && #[trigger] self.pending@[j].key@ == k;
                        self.lemma_entry(j);
                        if j != i {
                            assert(self.pending@[j] == before.pending@[j]);
                            before.lemma_entry(j);
                        }
                    }
                    assert(self@ =~= before@.insert(wanted, value));
                }
                Some(old_entry.value)
            },
            None => {
                let mut pending = Vec::new();
                std::mem::swap(&mut pending, &mut self.pending);
                pending.push(Entry { key, value });
                self.pending = pending;
                proof {
                    let n = before.pending@.len() as int;
                    assert forall|a: int, b: int|
                        0 <= a < self.pending@.len() && 0 <= b < self.pending@.len() && a != b
                        implies #[trigger] self.pending@[a].key@
                        != #[trigger] self.pending@[b].key@ by {
                        if a < n && b < n {
                            assert(self.pending@[a] == before.pending@[a]);
                            assert(self.pending@[b] == before.pending@[b]);
                        } else if a == n {
                            assert(self.pending@[b] == before.pending@[b]);
                            assert(before@.contains_key(before.pending@[b].key@));
                        } else {
                            assert(self.pending@[a] == before.pending@[a]);
                            assert(before@.contains_key(before.pending@[a].key@));
                        }
                    }
                    assert(self.ids_distinct());
                    assert forall|k: Seq<char>| #[trigger] self@.contains_key(k) <==> before@.insert(wanted, value).contains_key(k) by {
                        if self@.contains_key(k) {
                            let j = choose|j: int| 0 <= j < self.pending@.len() && #[trigger] self.pending@[j].key@ == k;
                            if j != n {
                                assert(self.pending@[j] == before.pending@[j]);
                            }
                        }
                        if before@.contains_key(k) {
                            let j = choose|j: int| 0 <= j < before.pending@.len() && #[trigger] before.pending@[j].key@ == k;
                            assert(self.pending@[j] == before.pending@[j]);
                        }
                        if k == wanted {
                            assert(self.pending@[n].key@ == wanted);
                        }
                    }
                    assert forall|k: Seq<char>| #[trigger] self@.contains_key(k) implies self@[k] == before@.insert(wanted, value)[k] by {
                        let j = choose|j: int| 0 <= j < self.pending@.len() && #[trigger] self.pending@[j].key@ == k;
                        self.lemma_entry(j);
                        if j != n {
                            assert(self.pending@[j] == before.pending@[j]);
                            before.lemma_entry(j);
                        }
                    }
                    assert(self@ =~= before@.insert(wanted, value));
                }
                None
            },
        }
    }

    /// Removes the value kept under `key` and hands it back, if there was one
    /// (`HashMap::remove`).
    pub fn withdraw(&mut self, key: &String) -> (value: Option<V>)
        ensures
            final(self)@ == old(self)@.remove(key@),
            value == (if old(self)@.contains_key(key@) {
                Some(old(self)@[key@])
            } else {
                None
            }),
    {
        proof {
            use_type_invariant(&*self);
        }
        let ghost wanted = key@;
        let ghost before = *self;
        match self.position(key) {
            None => {
                assert(self@ =~= before@.remove(wanted));
                None
            },
            Some(i) => {
                proof {
                    before.lemma_entry(i as int);
                }
                let mut pending = Vec::new();
                std::mem::swap(&mut pending, &mut self.pending);
                let entry = pending.remove(i);
                self.pending = pending;
                proof {
                    let n = before.pending@.len() as int;
                    assert forall|a: int| 0 <= a < self.pending@.len() implies #[trigger] self.pending@[a]
                        == before.pending@[if a < i { a } else { a + 1 }] by {}
                    assert forall|a: int, b: int|
                        0 <= a < self.pending@.len() && 0 <= b < self.pending@.len() && a != b
                        implies #[trigger] self.pending@[a].key@
                        != #[trigger] self.pending@[b].key@ by {
                        let a0 = if a < i { a } else { a + 1 };
                        let b0 = if b < i { b } else { b + 1 };
                        assert(self.pending@[a] == before.pending@[a0]);
                        assert(self.pending@[b] == before.pending@[b0]);
                    }
                    assert(self.ids_distinct());
                    assert forall|k: Seq<char>| #[trigger] self@.contains_key(k) <==> before@.remove(wanted).contains_key(k) by {
                        if self@.contains_key(k) {
                            let j = choose|j: int| 0 <= j < self.pending@.len() && #[trigger] self.pending@[j].key@ == k;
                            let j0 = if j < i { j } else { j + 1 };
                            assert(self.pending@[j] == before.pending@[j0]);
                            assert(before.pending@[j0].key@ == k);
                        }
                        if before@.contains_key(k) && k != wanted {
                            let j = choose|j: int| 0 <= j < before.pending@.len() && #[trigger] before.pending@[j].key@ == k;
                            assert(j != i);
                            let j1 = if j < i { j } else { j - 1 };
                            assert(self.pending@[j1] == before.pending@[j]);
                        }
                    }
                    assert forall|k: Seq<char>| #[trigger] self@.contains_key(k) implies self@[k] == before@.remove(wanted)[k] by {
                        let j = choose|j: int| 0 <= j < self.pending@.len() && #[trigger] self.pending@[j].key@ == k;
                        self.lemma_entry(j);
                        let j0 = if j < i { j } else { j + 1 };
                        assert(self.pending@[j] == before.pending@[j0]);
                        before.lemma_entry(j0);
                    }
                    assert(self@ =~= before@.remove(wanted));
                }
                Some(entry.value)
            },
        }
    }

    /// Removes every value.
    pub fn clear(&mut self)
        ensures
            final(self)@ == Map::<Seq<char>, V>::empty(),
    {
        self.pending = Vec::new();
        assert(self@ =~= Map::<Seq<char>, V>::empty());
    }

    /// Whether a value is kept under `key`.
    pub fn contains(&self, key: &String) -> (found: bool)
        ensures
            found == self@.contains_key(key@),
    {
        self.position(key).is_some()
    }
}

} // verus!
