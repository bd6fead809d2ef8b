use crate::util::text_eq;
use vstd::prelude::*;

verus! {

/// A finite map keyed by strings, kept as a list of entries in which no key
/// occurs twice. Its view is the mathematical map from the keys' characters
/// to the values.
pub struct StrMap<V> {
    entries: Vec<(String, V)>,
}

impl<V> View for StrMap<V> {
    type V = Map<Seq<char>, V>;

    closed spec fn view(&self) -> Map<Seq<char>, V> {
        Map::new(
            |k: Seq<char>| self.position(k) is Some,
            |k: Seq<char>| self.entries@[self.position(k).unwrap()].1,
        )
    }
}

impl<V> StrMap<V> {
    /// No key occurs twice among the entries.
    pub closed spec fn wf(&self) -> bool {
        forall|i: int, j: int|
            0 <= i < j < self.entries@.len() ==> self.entries@[i].0@ != self.entries@[j].0@
    }

    /// The keys in the order in which the map lists its entries.
    pub closed spec fn keys(&self) -> Seq<Seq<char>> {
        Seq::new(self.entries@.len(), |i: int| self.entries@[i].0@)
    }

    /// The values in the order in which the map lists its entries.
    pub closed spec fn values(&self) -> Seq<V> {
        Seq::new(self.entries@.len(), |i: int| self.entries@[i].1)
    }

    /// Where the entry of `k` stands in the list, if the map has one.
    spec fn position(&self, k: Seq<char>) -> Option<int> {
        if exists|i: int| 0 <= i < self.entries@.len() && self.entries@[i].0@ == k {
            Some(choose|i: int| 0 <= i < self.entries@.len() && self.entries@[i].0@ == k)
        } else {
            None
        }
    }

    /// The listing holds each key of the map once, with its value beside it,
    /// and the map is finite: it has as many keys as the listing has
    /// entries.
    pub proof fn lemma_listing(&self)
        requires
            self.wf(),
        ensures
            self.keys().len() == self.values().len(),
            self.keys().no_duplicates(),
            forall|i: int|
                0 <= i < self.keys().len() ==> self@.contains_key(#[trigger] self.keys()[i])
                    && self@[self.keys()[i]] == self.values()[i],
            forall|k: Seq<char>| self@.contains_key(k) ==> self.keys().contains(k),
            self@.dom().finite(),
            self@.dom().len() == self.keys().len(),
    {
        assert(self@.dom() =~= self.keys().to_set()) by {
            assert forall|k: Seq<char>| self@.dom().contains(k) == self.keys().to_set().contains(
                k,
            ) by {
                if self@.dom().contains(k) {
                    let p = self.position(k).unwrap();
                    assert(self.keys()[p] == k);
                }
                if self.keys().contains(k) {
                    let i = choose|i: int| 0 <= i < self.keys().len() && self.keys()[i] == k;
                    assert(self.entries@[i].0@ == k);
                }
            }
        }
        self.keys().unique_seq_to_set();
        assert forall|i: int| 0 <= i < self.keys().len() implies self@.contains_key(
            #[trigger] self.keys()[i],
        ) && self@[self.keys()[i]] == self.values()[i] by {
            let k = self.entries@[i].0@;
            let p = self.position(k).unwrap();
            assert(p == i);
        }
        assert forall|k: Seq<char>| self@.contains_key(k) implies self.keys().contains(k) by {
            let p = self.position(k).unwrap();
            assert(self.keys()[p] == k);
        }
    }

    /// The map without entries.
    pub fn new() -> (m: Self)
        ensures
            m.wf(),
            m@ == Map::<Seq<char>, V>::empty(),
            m.keys().len() == 0,
    {
        let m = StrMap { entries: Vec::new() };
        m
    }

    /// The number of entries.
    pub fn len(&self) -> (n: usize)
        ensures
            n == self.keys().len(),
            n == self.values().len(),
    {
        self.entries.len()
    }

    /// The key of the entry at place `i` of the listing.
    pub fn key_at(&self, i: usize) -> (k: &String)
        requires
            i < self.keys().len(),
        ensures
            k@ == self.keys()[i as int],
    {
        &self.entries[i].0
    }

    /// The value of the entry at place `i` of the listing.
    pub fn value_at(&self, i: usize) -> (v: &V)
        requires
            i < self.values().len(),
        ensures
            *v == self.values()[i as int],
    {
        &self.entries[i].1
    }

    fn find(&self, key: &str) -> (r: Option<usize>)
        requires
            self.wf(),
        ensures
            match r {
                Some(i) => i < self.entries@.len() && self.entries@[i as int].0@ == key@
                    && self.position(key@) == Some(i as int),
                None => self.position(key@) is None,
            },
    {
        let mut i: usize = 0;
        while i < self.entries.len()
            invariant
                self.wf(),
                i <= self.entries@.len(),
                forall|j: int| 0 <= j < i ==> self.entries@[j].0@ != key@,
            decreases self.entries@.len() - i,
        {
            if text_eq(self.entries[i].0.as_str(), key) {
                return Some(i);
            }
            i += 1;
        }
        None
    }

    /// Whether the map has an entry for `key`.
    pub fn contains_key(&self, key: &str) -> (b: bool)
        requires
            self.wf(),
        ensures
            b == self@.contains_key(key@),
    {
        self.find(key).is_some()
    }

    /// The value that the map holds for `key`.
    pub fn get(&self, key: &str) -> (r: Option<&V>)
        requires
            self.wf(),
        ensures
            match r {
                Some(v) => self@.contains_key(key@) && *v == self@[key@],
                None => !self@.contains_key(key@),
            },
    {
        match self.find(key) {
            Some(i) => Some(&self.entries[i].1),
            None => None,
        }
    }

    /// Sets the value for `key`, in place of the one that the map held for it.
    pub fn insert(&mut self, key: String, value: V)
        requires
            old(self).wf(),
        ensures
            final(self).wf(),
            final(self)@ == old(self)@.insert(key@, value),
    {
        let found = self.find(key.as_str());
        let ghost before = *self;
        match found {
            Some(i) => {
                self.entries.set(i, (key, value));
                proof {
                    assert forall|k: Seq<char>| self.position(k) == before.position(k) by {
                        let q = before.position(k);
                        if q is Some {
                            assert(self.entries@[q.unwrap()].0@ == k);
                        }
                        let p = self.position(k);
                        if p is Some {
                            assert(before.entries@[p.unwrap()].0@ == k);
                        }
                    }
                }
            },
            None => {
                self.entries.push((key, value));
                proof {
                    let n = before.entries@.len() as int;
                    assert(self.entries@[n].0@ == key@);
                    assert forall|k: Seq<char>| k != key@ implies self.position(k)
                        == before.position(k) by {
                        let q = before.position(k);
                        if q is Some {
                            assert(self.entries@[q.unwrap()].0@ == k);
                        }
                        let p = self.position(k);
                        if p is Some {
                            assert(before.entries@[p.unwrap()].0@ == k);
                        }
                    }
                }
            },
        }
    }

    /// Takes the entry of `key` out of the map and gives its value.
    pub fn remove(&mut self, key: &str) -> (r: Option<V>)
        requires
            old(self).wf(),
        ensures
            final(self).wf(),
            final(self)@ == old(self)@.remove(key@),
            match r {
                Some(v) => old(self)@.contains_key(key@) && v == old(self)@[key@],
                None => !old(self)@.contains_key(key@),
            },
    {
        let found = self.find(key);
        let ghost before = *self;
        match found {
            Some(i) => {
                let entry = self.entries.remove(i);
                proof {
                    assert forall|k: Seq<char>| k != key@ implies (self.position(k) is Some
                        <==> before.position(k) is Some) && (self.position(k) is Some
                        ==> self.entries@[self.position(k).unwrap()].1
                        == before.entries@[before.position(k).unwrap()].1) by {
                        let q = before.position(k);
                        if q is Some {
                            let qi = q.unwrap();
                            if qi < i {
                                assert(self.entries@[qi].0@ == k);
                            } else {
                                assert(self.entries@[qi - 1].0@ == k);
                            }
                        }
                        let p = self.position(k);
                        if p is Some {
                            let pi = p.unwrap();
                            if pi < i {
                                assert(before.entries@[pi].0@ == k);
                            } else {
                                assert(before.entries@[pi + 1].0@ == k);
                            }
                        }
                    }
                    assert(self.position(key@) is None) by {
                        if self.position(key@) is Some {
                            let pi = self.position(key@).unwrap();
                            if pi < i {
                                assert(before.entries@[pi].0@ == key@);
                            } else {
                                assert(before.entries@[pi + 1].0@ == key@);
                            }
                        }
                    }
                }
                Some(entry.1)
            },
            None => {
                None
            },
        }
    }
}

} // verus!
