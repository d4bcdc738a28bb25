//! A map from names to values, kept as a vector of distinct keys.
use vstd::prelude::*;

verus! {

/// A map keyed by names. Each name occurs at most once; lookups compare
/// names character by character.
#[derive(Debug)]
pub struct NameMap<T> {
    entries: Vec<(String, T)>,
}

impl<T> NameMap<T> {
    /// The entry at index `i` is keyed by `k`.
    pub closed spec fn key_at(self, k: Seq<char>, i: int) -> bool {
        0 <= i < self.entries@.len() && self.entries@[i].0@ == k
    }

    /// No name occurs twice.
    pub closed spec fn wf(self) -> bool {
        forall|i: int, j: int|
            0 <= i < self.entries@.len() && 0 <= j < self.entries@.len() && i != j
                ==> self.entries@[i].0@ != self.entries@[j].0@
    }

    /// The names held, with the value stored under each.
    pub closed spec fn map(self) -> Map<Seq<char>, T> {
        Map::new(
            |k: Seq<char>| exists|i: int| self.key_at(k, i),
            |k: Seq<char>| self.entries@[choose|i: int| self.key_at(k, i)].1,
        )
    }

    /// The names in the order they were first inserted.
    pub closed spec fn names(self) -> Seq<Seq<char>> {
        self.entries@.map_values(|e: (String, T)| e.0@)
    }

    proof fn lemma_entry(self, i: int)
        requires
            self.wf(),
            0 <= i < self.entries@.len(),
        ensures
            self.map().contains_key(self.entries@[i].0@),
            self.map()[self.entries@[i].0@] == self.entries@[i].1,
    {
        let k = self.entries@[i].0@;
        assert(self.key_at(k, i));
        let j = choose|j: int| self.key_at(k, j);
        assert(j == i);
    }

    /// The names held are those of `names()`, each once; so the map is
    /// finite and holds as many names as `names()` lists.
    pub proof fn lemma_names(self)
        requires
            self.wf(),
        ensures
            self.names().no_duplicates(),
            self.map().dom() == self.names().to_set(),
            self.map().dom().finite(),
            self.map().dom().len() == self.names().len(),
            forall|i: int|
                0 <= i < self.names().len() ==> #[trigger] self.map().contains_key(self.names()[i]),
    {
        let names = self.names();
        assert forall|i: int| 0 <= i < names.len() implies #[trigger] self.map().contains_key(names[i])
            && self.map()[names[i]] == self.entries@[i].1 by {
            self.lemma_entry(i);
        }
        assert forall|k: Seq<char>| #[trigger] self.map().dom().contains(k) == names.to_set().contains(k) by {
            if self.map().dom().contains(k) {
                let j = choose|j: int| self.key_at(k, j);
                assert(names[j] == k);
            }
            if names.to_set().contains(k) {
                let j = choose|j: int| 0 <= j < names.len() && names[j] == k;
                assert(self.key_at(k, j));
            }
        }
        assert(self.map().dom() =~= names.to_set());
        names.unique_seq_to_set();
    }

    /// The values held, in the order their names were first inserted.
    pub fn values(&self) -> (r: Vec<&T>)
        requires
            self.wf(),
        ensures
            r@.len() == self.names().len(),
            forall|i: int| 0 <= i < r@.len() ==> *r@[i] == self.map()[self.names()[i]],
    {
        let mut r: Vec<&T> = Vec::new();
        let n = self.entries.len();
        let mut i: usize = 0;
        while i < n
            invariant
                n == self.entries@.len(),
                i <= n,
                self.wf(),
                r@.len() == i,
                forall|j: int| 0 <= j < i ==> *r@[j] == self.entries@[j].1,
            decreases n - i,
        {
            r.push(&self.entries[i].1);
            i = i + 1;
        }
        proof {
            self.lemma_names();
            assert forall|j: int| 0 <= j < r@.len() implies *r@[j] == self.map()[self.names()[j]] by {
                self.lemma_entry(j);
            }
        }
        r
    }

    /// How many names are held.
    pub fn len(&self) -> (n: usize)
        ensures
            n == self.names().len(),
    {
        self.entries.len()
    }

    /// The name inserted `i`-th and the value stored under it.
    pub fn entry(&self, i: usize) -> (r: (&String, &T))
        requires
            self.wf(),
            i < self.names().len(),
        ensures
            r.0@ == self.names()[i as int],
            self.map().contains_key(self.names()[i as int]),
            *r.1 == self.map()[self.names()[i as int]],
    {
        proof {
            self.lemma_entry(i as int);
        }
        (&self.entries[i].0, &self.entries[i].1)
    }

    /// An empty map.
    pub fn new() -> (m: Self)
        ensures
            m.wf(),
            m.map() == Map::<Seq<char>, T>::empty(),
            m.names() == Seq::<Seq<char>>::empty(),
    {
        let m = NameMap { entries: Vec::new() };
        assert(m.map() =~= Map::<Seq<char>, T>::empty());
        assert(m.names() =~= Seq::<Seq<char>>::empty());
        m
    }

    /// The index of the entry keyed by `key`, if any.
    fn find(&self, key: &String) -> (r: Option<usize>)
        ensures
            match r {
                Some(i) => self.key_at(key@, i as int),
                None => forall|i: int| !self.key_at(key@, i),
            },
    {
        let n = self.entries.len();
        let mut i: usize = 0;
        while i < n
            invariant
                n == self.entries@.len(),
                i <= n,
                forall|j: int| 0 <= j < i ==> !self.key_at(key@, j),
            decreases n - i,
        {
            if self.entries[i].0 == *key {
                return Some(i);
            }
            i = i + 1;
        }
        None
    }

    /// Whether a value is stored under `key`.
    pub fn contains_key(&self, key: &str) -> (b: bool)
        ensures
            b == self.map().contains_key(key@),
    {
        let k = String::from_str(key);
        self.find(&k).is_some()
    }

    /// The value stored under `key`, if any.
    pub fn get(&self, key: &str) -> (r: Option<&T>)
        requires
            self.wf(),
        ensures
            match r {
                Some(v) => self.map().contains_key(key@) && *v == self.map()[key@],
                None => !self.map().contains_key(key@),
            },
    {
        let k = String::from_str(key);
        match self.find(&k) {
            Some(i) => {
                proof {
                    self.lemma_entry(i as int);
                }
                Some(&self.entries[i].1)
            },
            None => None,
        }
    }

    /// Stores `value` under `key`, replacing any earlier value there.
    pub fn insert(&mut self, key: String, value: T)
        requires
            old(self).wf(),
        ensures
            final(self).wf(),
            final(self).map() == old(self).map().insert(key@, value),
            old(self).map().contains_key(key@) ==> final(self).names() == old(self).names(),
            !old(self).map().contains_key(key@) ==> final(self).names() == old(self).names().push(key@),
    {
        let ghost k = key@;
        let ghost before = *self;
        match self.find(&key) {
            Some(i) => {
                self.entries.set(i, (key, value));
                proof {
                    let after = *self;
                    assert(before.key_at(k, i as int));
                    assert forall|a: int| 0 <= a < after.entries@.len() implies after.entries@[a].0@
                        == before.entries@[a].0@ by {}
                    assert(after.wf());
                    assert(before.map().contains_key(k));
                    after.lemma_entry(i as int);
                    assert forall|kk: Seq<char>| #[trigger] after.map().contains_key(kk) == before.map().insert(k, value).contains_key(kk) by {
                        if before.map().contains_key(kk) {
                            let j = choose|j: int| before.key_at(kk, j);
                            assert(after.key_at(kk, j));
                        }
                        if after.map().contains_key(kk) {
                            let j = choose|j: int| after.key_at(kk, j);
                            assert(before.key_at(kk, j));
                        }
                    }
                    assert forall|kk: Seq<char>| after.map().contains_key(kk) implies #[trigger] after.map()[kk] == before.map().insert(k, value)[kk] by {
                        let j = choose|j: int| after.key_at(kk, j);
                        after.lemma_entry(j);
                        if kk != k {
                            assert(j != i);
                            before.lemma_entry(j);
                        }
                    }
                    assert(after.map() =~= before.map().insert(k, value));
                    assert(after.names() =~= before.names());
                }
            },
            None => {
                self.entries.push((key, value));
                proof {
                    let after = *self;
                    let n = before.entries@.len() as int;
                    assert forall|a: int, b: int|
                        0 <= a < after.entries@.len() && 0 <= b < after.entries@.len() && a != b
                        implies after.entries@[a].0@ != after.entries@[b].0@ by {
                        if a == n {
                            assert(!before.key_at(k, b));
                        } else if b == n {
                            assert(!before.key_at(k, a));
                        }
                    }
                    assert(after.wf());
                    after.lemma_entry(n);
                    assert forall|kk: Seq<char>| #[trigger] after.map().contains_key(kk) == before.map().insert(k, value).contains_key(kk) by {
                        if before.map().contains_key(kk) {
                            let j = choose|j: int| before.key_at(kk, j);
                            assert(after.key_at(kk, j));
                        }
                        if after.map().contains_key(kk) && kk != k {
                            let j = choose|j: int| after.key_at(kk, j);
                            assert(j != n);
                            assert(before.key_at(kk, j));
                        }
                    }
                    assert forall|kk: Seq<char>| after.map().contains_key(kk) implies #[trigger] after.map()[kk] == before.map().insert(k, value)[kk] by {
                        let j = choose|j: int| after.key_at(kk, j);
                        after.lemma_entry(j);
                        if kk != k {
                            assert(j != n);
                            before.lemma_entry(j);
                        }
                    }
                    assert(after.map() =~= before.map().insert(k, value));
                    assert(after.names() =~= before.names().push(k));
                }
            },
        }
    }

    /// Removes the value stored under `key`, if any, and hands it back.
    pub fn remove(&mut self, key: &str) -> (r: Option<T>)
        requires
            old(self).wf(),
        ensures
            final(self).wf(),
            final(self).map() == old(self).map().remove(key@),
            match r {
                Some(v) => old(self).map().contains_key(key@) && v == old(self).map()[key@],
                None => !old(self).map().contains_key(key@),
            },
    {
        let k = String::from_str(key);
        let ghost before = *self;
        match self.find(&k) {
            Some(i) => {
                proof {
                    before.lemma_entry(i as int);
                }
                let (_, value) = self.entries.remove(i);
                proof {
                    let after = *self;
                    assert forall|kk: Seq<char>| #[trigger] after.map().contains_key(kk) == before.map().remove(k@).contains_key(kk) by {
                        if before.map().contains_key(kk) && kk != k@ {
                            let j = choose|j: int| before.key_at(kk, j);
                            assert(j != i);
                            if j < i {
                                assert(after.key_at(kk, j));
                            } else {
                                assert(after.key_at(kk, j - 1));
                            }
                        }
                        if after.map().contains_key(kk) {
                            let j = choose|j: int| after.key_at(kk, j);
                            if j < i {
                                assert(before.key_at(kk, j));
                            } else {
                                assert(before.key_at(kk, j + 1));
                            }
                            assert(kk != k@);
                        }
                    }
                    assert forall|kk: Seq<char>| after.map().contains_key(kk) implies #[trigger] after.map()[kk] == before.map().remove(k@)[kk] by {
                        let j = choose|j: int| after.key_at(kk, j);
                        after.lemma_entry(j);
                        if j < i {
                            before.lemma_entry(j);
                        } else {
                            before.lemma_entry(j + 1);
                        }
                    }
                    assert(after.map() =~= before.map().remove(k@));
                }
                Some(value)
            },
            None => {
                assert(self.map() =~= before.map().remove(k@));
                None
            },
        }
    }

    /// Removes every entry.
    pub fn clear(&mut self)
        ensures
            final(self).wf(),
            final(self).map() == Map::<Seq<char>, T>::empty(),
            final(self).names() == Seq::<Seq<char>>::empty(),
    {
        self.entries.clear();
        assert(self.map() =~= Map::<Seq<char>, T>::empty());
        assert(self.names() =~= Seq::<Seq<char>>::empty());
    }
}

} // verus!
