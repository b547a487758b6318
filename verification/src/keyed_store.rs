use vstd::prelude::*;

verus! {

/// Values filed under string keys; no key is filed twice.
pub struct KeyedStore<V> {
    entries: Vec<(String, V)>,
}

impl<V> KeyedStore<V> {
    /// No key is filed twice.
    pub closed spec fn wf(self) -> bool {
        forall|i: int, j: int|
            0 <= i < self.entries@.len() && 0 <= j < self.entries@.len() && i != j
                ==> #[trigger] self.entries@[i].0@ != #[trigger] self.entries@[j].0@
    }

    spec fn holds_at(self, k: Seq<char>, i: int) -> bool {
        0 <= i < self.entries@.len() && self.entries@[i].0@ == k
    }

    /// Whether a value is filed under `k`.
    pub closed spec fn has(self, k: Seq<char>) -> bool {
        exists|i: int| self.holds_at(k, i)
    }

    spec fn position(self, k: Seq<char>) -> int {
        choose|i: int| self.holds_at(k, i)
    }

    /// The store as a map from keys to values.
    pub closed spec fn as_map(self) -> Map<Seq<char>, V> {
        Map::new(|k: Seq<char>| self.has(k), |k: Seq<char>| self.entries@[self.position(k)].1)
    }

    proof fn lemma_position(self, k: Seq<char>, i: int)
        requires
            self.wf(),
            self.holds_at(k, i),
        ensures
            self.has(k),
            self.position(k) == i,
            self.as_map().contains_key(k),
            self.as_map()[k] == self.entries@[i].1,
    {
        let p = self.position(k);
        assert(self.holds_at(k, p));
        if p != i {
            assert(self.entries@[p].0@ == self.entries@[i].0@);
        }
    }

    /// An empty store.
    pub fn new() -> (s: Self)
        ensures
            s.wf(),
            s@ == Map::<Seq<char>, V>::empty(),
    {
        let s = KeyedStore { entries: Vec::new() };
        assert(s.as_map() =~= Map::<Seq<char>, V>::empty());
        s
    }

    fn find(&self, key: &String) -> (r: Option<usize>)
        ensures
            match r {
                Some(i) => self.holds_at(key@, i as int),
                None => !self.has(key@),
            },
    {
        let mut i: usize = 0;
        while i < self.entries.len()
            invariant
                0 <= i <= self.entries@.len(),
                forall|j: int| 0 <= j < i ==> self.entries@[j].0@ != key@,
            decreases self.entries@.len() - i,
        {
            if self.entries[i].0 == *key {
                return Some(i);
            }
            i = i + 1;
        }
        assert forall|j: int| !self.holds_at(key@, j) by {}
        None
    }

    /// The value filed under `key`, if any.
    pub fn get(&self, key: &str) -> (r: Option<&V>)
        requires
            self.wf(),
        ensures
            r is Some <==> self@.contains_key(key@),
            r matches Some(v) ==> *v == self@[key@],
    {
        let k = key.to_owned();
        match self.find(&k) {
            Some(i) => {
                proof {
                    self.lemma_position(key@, i as int);
                }
                Some(&self.entries[i].1)
            },
            None => None,
        }
    }

    /// Files `value` under `key`, replacing what was filed there.
    pub fn insert(&mut self, key: String, value: V)
        requires
            old(self).wf(),
        ensures
            final(self).wf(),
            final(self)@ == old(self)@.insert(key@, value),
    {
        let ghost k = key@;
        let ghost pre = *self;
        match self.find(&key) {
            Some(i) => {
                self.entries.set(i, (key, value));
                proof {
                    assert(self.entries@ == pre.entries@.update(i as int, (self.entries@[i as int].0, value)));
                    assert forall|a: int, b: int|
                        0 <= a < self.entries@.len() && 0 <= b < self.entries@.len() && a != b
                            implies #[trigger] self.entries@[a].0@ != #[trigger] self.entries@[b].0@ by {
                        assert(pre.entries@[a].0@ == self.entries@[a].0@);
                        assert(pre.entries@[b].0@ == self.entries@[b].0@);
                    }
                    self.lemma_position(k, i as int);
                    assert forall|k2: Seq<char>| #[trigger] self.has(k2) == pre.has(k2) by {
                        if self.has(k2) {
                            let j = self.position(k2);
                            assert(pre.holds_at(k2, j));
                        }
                        if pre.has(k2) {
                            let j = pre.position(k2);
                            assert(self.holds_at(k2, j));
                        }
                    }
                    assert forall|k2: Seq<char>| k2 != k && #[trigger] pre.has(k2) implies
                        self.as_map()[k2] == pre.as_map()[k2] by {
                        let j = pre.position(k2);
                        pre.lemma_position(k2, j);
                        assert(self.holds_at(k2, j));
                        self.lemma_position(k2, j);
                    }
                    assert(self.as_map() =~= pre.as_map().insert(k, value));
                }
            },
            None => {
                self.entries.push((key, value));
                proof {
                    let n = pre.entries@.len() as int;
                    assert forall|a: int, b: int|
                        0 <= a < self.entries@.len() && 0 <= b < self.entries@.len() && a != b
                            implies #[trigger] self.entries@[a].0@ != #[trigger] self.entries@[b].0@ by {
                        if a == n {
                            assert(!pre.holds_at(k, b));
                        } else if b == n {
                            assert(!pre.holds_at(k, a));
                        } else {
                            assert(pre.entries@[a] == self.entries@[a]);
                            assert(pre.entries@[b] == self.entries@[b]);
                        }
                    }
                    self.lemma_position(k, n);
                    assert forall|k2: Seq<char>| k2 != k implies #[trigger] self.has(k2) == pre.has(k2) by {
                        if self.has(k2) {
                            let j = self.position(k2);
                            assert(pre.holds_at(k2, j));
                        }
                        if pre.has(k2) {
                            let j = pre.position(k2);
                            assert(self.holds_at(k2, j));
                        }
                    }
                    assert forall|k2: Seq<char>| k2 != k && #[trigger] pre.has(k2) implies
                        self.as_map()[k2] == pre.as_map()[k2] by {
                        let j = pre.position(k2);
                        pre.lemma_position(k2, j);
                        assert(self.holds_at(k2, j));
                        self.lemma_position(k2, j);
                    }
                    assert(self.as_map() =~= pre.as_map().insert(k, value));
                }
            },
        }
    }

    /// Takes out the value filed under `key`, if any.
    pub fn remove(&mut self, key: &str) -> (r: Option<V>)
        requires
            old(self).wf(),
        ensures
            final(self).wf(),
            final(self)@ == old(self)@.remove(key@),
            r is Some <==> old(self)@.contains_key(key@),
            r matches Some(v) ==> v == old(self)@[key@],
    {
        let ghost k = key@;
        let ghost pre = *self;
        let owned = key.to_owned();
        match self.find(&owned) {
            Some(i) => {
                proof {
                    pre.lemma_position(k, i as int);
                }
                let (_, v) = self.entries.remove(i);
                proof {
                    assert(self.entries@ == pre.entries@.remove(i as int));
                    assert forall|a: int, b: int|
                        0 <= a < self.entries@.len() && 0 <= b < self.entries@.len() && a != b
                            implies #[trigger] self.entries@[a].0@ != #[trigger] self.entries@[b].0@ by {
                        let pa = if a < i { a } else { a + 1 };
                        let pb = if b < i { b } else { b + 1 };
                        assert(self.entries@[a] == pre.entries@[pa]);
                        assert(self.entries@[b] == pre.entries@[pb]);
                    }
                    assert forall|k2: Seq<char>| #[trigger] self.has(k2) == (pre.has(k2) && k2 != k) by {
                        if self.has(k2) {
                            let j = self.position(k2);
                            let pj = if j < i { j } else { j + 1 };
                            assert(self.entries@[j] == pre.entries@[pj]);
                            assert(pre.holds_at(k2, pj));
                            if k2 == k {
                                assert(pj != i);
                            }
                        }
                        if pre.has(k2) && k2 != k {
                            let j = pre.position(k2);
                            assert(j != i);
                            let nj = if j < i { j } else { j - 1 };
                            assert(self.entries@[nj] == pre.entries@[j]);
                            assert(self.holds_at(k2, nj));
                        }
                    }
                    assert forall|k2: Seq<char>| k2 != k && #[trigger] pre.has(k2) implies
                        self.as_map()[k2] == pre.as_map()[k2] by {
                        let j = pre.position(k2);
                        pre.lemma_position(k2, j);
                        assert(j != i);
                        let nj = if j < i { j } else { j - 1 };
                        assert(self.entries@[nj] == pre.entries@[j]);
                        assert(self.holds_at(k2, nj));
                        self.lemma_position(k2, nj);
                    }
                    assert(self.as_map() =~= pre.as_map().remove(k));
                }
                Some(v)
            },
            None => {
                proof {
                    assert(pre.as_map() =~= pre.as_map().remove(k));
                }
                None
            },
        }
    }
}

impl<V> View for KeyedStore<V> {
    type V = Map<Seq<char>, V>;

    open spec fn view(&self) -> Map<Seq<char>, V> {
        self.as_map()
    }
}

} // verus!
