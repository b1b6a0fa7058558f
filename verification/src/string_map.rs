//! A map with text keys.

use crate::text;
use vstd::prelude::*;

verus! {

/// A map from text to values, kept in the order of first insertion.
pub struct StringMap<V> {
    entries: Vec<(String, V)>,
}

/// The position of the entry with the given key.
spec fn position<V>(entries: Seq<(String, V)>, key: Seq<char>) -> int {
    choose|i: int| 0 <= i < entries.len() && #[trigger] entries[i].0@ == key
}

/// Whether some entry has the given key.
spec fn has_key<V>(entries: Seq<(String, V)>, key: Seq<char>) -> bool {
    exists|i: int| 0 <= i < entries.len() && #[trigger] entries[i].0@ == key
}

impl<V> View for StringMap<V> {
    type V = Map<Seq<char>, V>;

    closed spec fn view(&self) -> Map<Seq<char>, V> {
        Map::new(
            |key: Seq<char>| has_key(self.entries@, key),
            |key: Seq<char>| self.entries@[position(self.entries@, key)].1,
        )
    }
}

impl<V> StringMap<V> {
    /// No key occurs twice.
    pub closed spec fn wf(&self) -> bool {
        forall|i: int, j: int|
            0 <= i < j < self.entries@.len() ==> #[trigger] self.entries@[i].0@
                != #[trigger] self.entries@[j].0@
    }

    /// The keys, in the order of first insertion.
    pub closed spec fn keys(&self) -> Seq<Seq<char>> {
        self.entries@.map_values(|e: (String, V)| e.0@)
    }

    /// The keys are those of the map, each once.
    pub proof fn law_keys_are_those_of_the_map(&self)
        requires
            self.wf(),
        ensures
            self.keys().no_duplicates(),
            forall|k: Seq<char>| #[trigger]
                self.keys().contains(k) <==> self@.dom().contains(k),
    {
        assert forall|k: Seq<char>| #[trigger]
            self.keys().contains(k) <==> self@.dom().contains(k) by {
            if self.keys().contains(k) {
                let i = choose|i: int| 0 <= i < self.keys().len() && self.keys()[i] == k;
                assert(self.entries@[i].0@ == k);
            }
            if has_key(self.entries@, k) {
                let i = position(self.entries@, k);
                assert(self.entries@[i].0@ == k);
                assert(self.keys()[i] == k);
            }
        }
        assert forall|i: int, j: int|
            0 <= i < self.keys().len() && 0 <= j < self.keys().len() && i
                != j implies #[trigger] self.keys()[i] != #[trigger] self.keys()[j] by {
            if i < j {
                assert(self.entries@[i].0@ != self.entries@[j].0@);
            } else {
                assert(self.entries@[j].0@ != self.entries@[i].0@);
            }
        }
    }

    /// How many keys there are.
    pub fn len(&self) -> (r: usize)
        ensures
            r == self.keys().len(),
    {
        self.entries.len()
    }

    /// The value of the key at a position.
    pub fn value_at(&self, i: usize) -> (r: &V)
        requires
            self.wf(),
            i < self.keys().len(),
        ensures
            self@.dom().contains(self.keys()[i as int]),
            *r == self@[self.keys()[i as int]],
    {
        proof {
            self.lemma_entry(i as int);
        }
        &self.entries[i].1
    }

    proof fn lemma_entry(&self, i: int)
        requires
            self.wf(),
            0 <= i < self.entries@.len(),
        ensures
            self@.dom().contains(self.entries@[i].0@),
            self@[self.entries@[i].0@] == self.entries@[i].1,
    {
        let key = self.entries@[i].0@;
        assert(has_key(self.entries@, key));
        let p = position(self.entries@, key);
        assert(self.entries@[p].0@ == key);
        if p < i {
            assert(self.entries@[p].0@ != self.entries@[i].0@);
        } else if i < p {
            assert(self.entries@[i].0@ != self.entries@[p].0@);
        }
    }

    /// A map without entries.
    pub fn new() -> (r: Self)
        ensures
            r.wf(),
            r@ == Map::<Seq<char>, V>::empty(),
    {
        let r = StringMap { entries: Vec::new() };
        assert(r@ =~= Map::<Seq<char>, V>::empty());
        r
    }

    /// The position of the entry with the given key.
    fn find(&self, key: &str) -> (r: Option<usize>)
        requires
            self.wf(),
        ensures
            match r {
                Some(i) => i < self.entries@.len() && self.entries@[i as int].0@ == key@
                    && self@.dom().contains(key@) && self@[key@] == self.entries@[i as int].1,
                None => !self@.dom().contains(key@),
            },
    {
        let mut i: usize = 0;
        while i < self.entries.len()
            invariant
                0 <= i <= self.entries@.len(),
                self.wf(),
                forall|j: int| 0 <= j < i ==> #[trigger] self.entries@[j].0@ != key@,
            decreases self.entries@.len() - i,
        {
            if text::str_eq(self.entries[i].0.as_str(), key) {
                proof {
                    self.lemma_entry(i as int);
                }
                return Some(i);
            }
            i += 1;
        }
        None
    }

    /// The value of a key.
    pub fn get(&self, key: &str) -> (r: Option<&V>)
        requires
            self.wf(),
        ensures
            match r {
                Some(v) => self@.dom().contains(key@) && *v == self@[key@],
                None => !self@.dom().contains(key@),
            },
    {
        match self.find(key) {
            Some(i) => Some(&self.entries[i].1),
            None => None,
        }
    }

    /// Gives a key a value, in place of the value it had.
    pub fn insert(&mut self, key: &str, value: V)
        requires
            old(self).wf(),
        ensures
            final(self).wf(),
            final(self)@ == old(self)@.insert(key@, value),
    {
        let ghost before = *self;
        match self.find(key) {
            Some(i) => {
                let name = self.entries[i].0.clone();
                self.entries.set(i, (name, value));
                proof {
                    let e = self.entries@;
                    let b = before.entries@;
                    assert(forall|j: int| 0 <= j < e.len() ==> (#[trigger] e[j]).0@ == b[j].0@);
                    assert(self.wf());
                    assert forall|k: Seq<char>| #[trigger]
                        self@.dom().contains(k) == before@.insert(key@, value).dom().contains(k) by {
                        if has_key(b, k) {
                            let p = position(b, k);
                            assert(e[p].0@ == k);
                        }
                        if has_key(e, k) {
                            let p = position(e, k);
                            assert(b[p].0@ == k);
                        }
                        self.lemma_entry(i as int);
                    }
                    assert forall|k: Seq<char>| self@.dom().contains(k) implies #[trigger] self@[k]
                        == before@.insert(key@, value)[k] by {
                        let p = position(e, k);
                        assert(e[p].0@ == k);
                        self.lemma_entry(p);
                        before.lemma_entry(p);
                    }
                    assert(self@ =~= before@.insert(key@, value));
                }
            },
            None => {
                self.entries.push((key.to_owned(), value));
                proof {
                    let e = self.entries@;
                    let b = before.entries@;
                    assert(forall|j: int| 0 <= j < b.len() ==> #[trigger] e[j] == b[j]);
                    assert(forall|j: int| 0 <= j < b.len() ==> #[trigger] b[j].0@ != key@);
                    assert(self.wf());
                    assert forall|k: Seq<char>| #[trigger]
                        self@.dom().contains(k) == before@.insert(key@, value).dom().contains(k) by {
                        if has_key(b, k) {
                            let p = position(b, k);
                            assert(e[p].0@ == k);
                        }
                        assert(e[b.len() as int].0@ == key@);
                        if has_key(e, k) {
                            let p = position(e, k);
                            if p < b.len() {
                                assert(b[p].0@ == k);
                            }
                        }
                    }
                    assert forall|k: Seq<char>| self@.dom().contains(k) implies #[trigger] self@[k]
                        == before@.insert(key@, value)[k] by {
                        let p = position(e, k);
                        assert(e[p].0@ == k);
                        self.lemma_entry(p);
                        if p < b.len() {
                            before.lemma_entry(p);
                        }
                    }
                    assert(self@ =~= before@.insert(key@, value));
                }
            },
        }
    }

    /// Takes a key and its value out.
    pub fn remove(&mut self, key: &str)
        requires
            old(self).wf(),
        ensures
            final(self).wf(),
            final(self)@ == old(self)@.remove(key@),
    {
        let ghost before = *self;
        match self.find(key) {
            Some(i) => {
                let _ = self.entries.remove(i);
                proof {
                    let e = self.entries@;
                    let b = before.entries@;
                    assert(e =~= b.remove(i as int));
                    assert(self.wf());
                    assert forall|k: Seq<char>| #[trigger]
                        self@.dom().contains(k) == before@.remove(key@).dom().contains(k) by {
                        if has_key(b, k) && k != key@ {
                            let p = position(b, k);
                            if p < i {
                                assert(e[p].0@ == k);
                            } else {
                                assert(e[p - 1].0@ == k);
                            }
                        }
                        if has_key(e, k) {
                            let p = position(e, k);
                            if p < i {
                                assert(b[p].0@ == k);
                                assert(b[p].0@ != b[i as int].0@);
                            } else {
                                assert(b[p + 1].0@ == k);
                                assert(b[i as int].0@ != b[p + 1].0@);
                            }
                        }
                    }
                    assert forall|k: Seq<char>| self@.dom().contains(k) implies #[trigger] self@[k]
                        == before@.remove(key@)[k] by {
                        let p = position(e, k);
                        assert(e[p].0@ == k);
                        self.lemma_entry(p);
                        if p < i {
                            before.lemma_entry(p);
                        } else {
                            before.lemma_entry(p + 1);
                        }
                    }
                    assert(self@ =~= before@.remove(key@));
                }
            },
            None => {
                assert(self@ =~= before@.remove(key@));
            },
        }
    }

    /// Keeps the entries whose keys are among `keys`.
    pub fn retain_keys(&mut self, keys: &Vec<String>)
        requires
            old(self).wf(),
        ensures
            final(self).wf(),
            final(self)@ == old(self)@.restrict(text::views(keys@).to_set()),
    {
        let ghost before = *self;
        let ghost wanted = text::views(keys@).to_set();
        let mut i: usize = 0;
        while i < self.entries.len()
            invariant
                0 <= i <= self.entries@.len(),
                self.wf(),
                wanted == text::views(keys@).to_set(),
                before@.restrict(wanted) == self@.restrict(wanted),
                forall|j: int| 0 <= j < i ==> wanted.contains(#[trigger] self.entries@[j].0@),
            decreases self.entries@.len() - i,
        {
            let mut found = false;
            let mut k: usize = 0;
            while k < keys.len()
                invariant
                    0 <= k <= keys@.len(),
                    i < self.entries@.len(),
                    found == (exists|j: int|
                        0 <= j < k && #[trigger] keys@[j]@ == self.entries@[i as int].0@),
                decreases keys@.len() - k,
            {
                if keys[k] == self.entries[i].0 {
                    found = true;
                }
                k += 1;
            }
            proof {
                let name = self.entries@[i as int].0@;
                if found {
                    let j = choose|j: int|
                        0 <= j < keys@.len() && #[trigger] keys@[j]@ == name;
                    assert(text::views(keys@)[j] == name);
                } else if wanted.contains(name) {
                    let j = choose|j: int|
                        0 <= j < text::views(keys@).len() && text::views(keys@)[j] == name;
                    assert(keys@[j]@ == name);
                }
            }
            if found {
                i += 1;
            } else {
                let ghost mid = *self;
                let key = self.entries[i].0.clone();
                let _ = self.entries.remove(i);
                proof {
                    let e = self.entries@;
                    let b = mid.entries@;
                    assert(e =~= b.remove(i as int));
                    assert(self.wf());
                    assert forall|k: Seq<char>| wanted.contains(k) implies #[trigger]
                        self@.dom().contains(k) == mid@.dom().contains(k) by {
                        if has_key(b, k) {
                            let p = position(b, k);
                            if p < i {
                                assert(e[p].0@ == k);
                            } else {
                                assert(e[p - 1].0@ == k);
                            }
                        }
                        if has_key(e, k) {
                            let p = position(e, k);
                            if p < i {
                                assert(b[p].0@ == k);
                            } else {
                                assert(b[p + 1].0@ == k);
                            }
                        }
                    }
                    assert forall|k: Seq<char>|
                        wanted.contains(k) && self@.dom().contains(k) implies #[trigger] self@[k]
                        == mid@[k] by {
                        let p = position(e, k);
                        assert(e[p].0@ == k);
                        self.lemma_entry(p);
                        if p < i {
                            mid.lemma_entry(p);
                        } else {
                            mid.lemma_entry(p + 1);
                        }
                    }
                    assert(self@.restrict(wanted) =~= mid@.restrict(wanted));
                }
            }
        }
        proof {
            assert forall|k: Seq<char>| self@.dom().contains(k) implies wanted.contains(k) by {
                let p = position(self.entries@, k);
                assert(self.entries@[p].0@ == k);
            }
            assert(self@ =~= self@.restrict(wanted));
        }
    }
}

} // verus!
