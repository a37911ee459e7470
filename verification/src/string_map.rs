//! A map keyed by text, kept as a list of entries that is searched from the
//! front: the first entry with a key is the one that counts.

use vstd::prelude::*;

verus! {

/// A finite map from text to `V`. Its view is the mathematical map.
pub struct StringMap<V> {
    entries: Vec<(String, V)>,
}

impl<V> StringMap<V> {
    /// The entry at `i` is the first one with the key `key`.
    spec fn is_first(self, key: Seq<char>, i: int) -> bool {
        &&& 0 <= i < self.entries.len()
        &&& self.entries[i].0@ == key
        &&& forall|j: int| 0 <= j < i ==> (#[trigger] self.entries[j]).0@ != key
    }

    /// Some entry has the key `key`.
    spec fn has_entry(self, key: Seq<char>) -> bool {
        exists|i: int| self.is_first(key, i)
    }

    /// The place of the first entry with the key `key`.
    spec fn position(self, key: Seq<char>) -> int {
        choose|i: int| self.is_first(key, i)
    }

    /// A key has at most one first entry.
    proof fn lemma_first_is_unique(self, key: Seq<char>, i: int, j: int)
        requires
            self.is_first(key, i),
            self.is_first(key, j),
        ensures
            i == j,
    {
        if i < j {
            assert(self.entries[i].0@ != key);
        }
        if j < i {
            assert(self.entries[j].0@ != key);
        }
    }

    /// The empty map.
    pub fn new() -> (r: StringMap<V>)
        ensures
            r@ == Map::<Seq<char>, V>::empty(),
    {
        let r = StringMap { entries: Vec::new() };
        assert(r@ =~= Map::<Seq<char>, V>::empty());
        r
    }

    /// The place of the first entry with the key `key`, if there is one.
    fn find(&self, key: &String) -> (r: Option<usize>)
        ensures
            match r {
                Some(i) => self.is_first(key@, i as int) && self.position(key@) == i,
                None => !self.has_entry(key@),
            },
    {
        let n: usize = self.entries.len();
        let mut i: usize = 0;
        while i < n
            invariant
                n == self.entries.len(),
                i <= n,
                forall|j: int| 0 <= j < i ==> (#[trigger] self.entries[j]).0@ != key@,
            decreases n - i,
        {
            if self.entries[i].0 == *key {
                proof {
                    self.lemma_first_is_unique(key@, i as int, self.position(key@));
                }
                return Some(i);
            }
            i = i + 1;
        }
        assert forall|p: int| !self.is_first(key@, p) by {
            if 0 <= p < n {
                assert(self.entries[p].0@ != key@);
            }
        }
        None
    }

    /// Whether the map holds `key`.
    pub fn contains_key(&self, key: &String) -> (r: bool)
        ensures
            r == self@.contains_key(key@),
    {
        self.find(key).is_some()
    }

    /// The value under `key`, if the map holds it.
    pub fn get(&self, key: &String) -> (r: Option<&V>)
        ensures
            match r {
                Some(v) => self@.contains_key(key@) && *v == self@[key@],
                None => !self@.contains_key(key@),
            },
    {
        match self.find(key) {
            Some(i) => Some(&self.entries[i].1),
            None => None,
        }
    }

    /// Puts `value` under `key`, in place of what was there.
    pub fn insert(&mut self, key: String, value: V)
        ensures
            final(self)@ == old(self)@.insert(key@, value),
    {
        let ghost before = *self;
        let ghost k = key@;
        match self.find(&key) {
            Some(i) => {
                self.entries.set(i, (key, value));
                assert forall|other: Seq<char>, p: int| #[trigger]
                    self.is_first(other, p) == before.is_first(other, p) by {
                    if 0 <= p < self.entries.len() {
                        assert(self.entries[p].0@ == before.entries[p].0@);
                        assert forall|j: int| 0 <= j < p implies (#[trigger] self.entries[j]).0@
                            == before.entries[j].0@ by {}
                        if self.is_first(other, p) {
                            assert forall|j: int| 0 <= j < p implies (
                            #[trigger] before.entries[j]).0@ != other by {
                                assert(self.entries[j].0@ != other);
                            }
                        }
                        if before.is_first(other, p) {
                            assert forall|j: int| 0 <= j < p implies (
                            #[trigger] self.entries[j]).0@ != other by {
                                assert(before.entries[j].0@ != other);
                            }
                        }
                    }
                }
                assert forall|other: Seq<char>| #[trigger]
                    self.has_entry(other) == before.has_entry(other) by {
                    if self.has_entry(other) {
                        assert(before.is_first(other, self.position(other)));
                    }
                    if before.has_entry(other) {
                        assert(self.is_first(other, before.position(other)));
                    }
                }
                assert forall|other: Seq<char>| self.has_entry(other) implies #[trigger] self@[other]
                    == before@.insert(k, value)[other] by {
                    let p = self.position(other);
                    assert(before.is_first(other, p));
                    before.lemma_first_is_unique(other, p, before.position(other));
                    if other == k {
                        self.lemma_first_is_unique(other, p, i as int);
                    } else {
                        assert(p != i);
                    }
                }
                assert(self@ =~= before@.insert(k, value));
            },
            None => {
                self.entries.push((key, value));
                let ghost n = before.entries.len() as int;
                assert forall|other: Seq<char>, p: int| 0 <= p < n implies (#[trigger] self.is_first(
                    other,
                    p,
                ) == before.is_first(other, p)) by {
                    assert(self.entries[p] == before.entries[p]);
                    if self.is_first(other, p) {
                        assert forall|j: int| 0 <= j < p implies (
                        #[trigger] before.entries[j]).0@ != other by {
                            assert(self.entries[j].0@ != other);
                        }
                    }
                    if before.is_first(other, p) {
                        assert forall|j: int| 0 <= j < p implies (
                        #[trigger] self.entries[j]).0@ != other by {
                            assert(before.entries[j].0@ != other);
                        }
                    }
                }
                assert(self.is_first(k, n)) by {
                    assert forall|j: int| 0 <= j < n implies (#[trigger] self.entries[j]).0@
                        != k by {
                        if before.entries[j].0@ == k {
                            before.lemma_has_entry(k, j);
                        }
                    }
                }
                assert forall|other: Seq<char>| #[trigger]
                    self.has_entry(other) == (other == k || before.has_entry(other)) by {
                    if before.has_entry(other) {
                        assert(self.is_first(other, before.position(other)));
                    }
                    if self.has_entry(other) && other != k {
                        let p = self.position(other);
                        assert(p != n);
                        assert(before.is_first(other, p));
                    }
                }
                assert forall|other: Seq<char>| self.has_entry(other) implies #[trigger] self@[other]
                    == before@.insert(k, value)[other] by {
                    let p = self.position(other);
                    if other == k {
                        self.lemma_first_is_unique(other, p, n);
                    } else {
                        assert(p != n);
                        assert(before.is_first(other, p));
                        before.lemma_first_is_unique(other, p, before.position(other));
                    }
                }
                assert(self@ =~= before@.insert(k, value));
            },
        }
    }

    /// An entry with the key `key` at `at` means that the key has a first
    /// entry.
    proof fn lemma_has_entry(self, key: Seq<char>, at: int)
        requires
            0 <= at < self.entries.len(),
            self.entries[at].0@ == key,
        ensures
            self.has_entry(key),
        decreases at,
    {
        if exists|j: int| 0 <= j < at && (#[trigger] self.entries[j]).0@ == key {
            let j = choose|j: int| 0 <= j < at && (#[trigger] self.entries[j]).0@ == key;
            self.lemma_has_entry(key, j);
        } else {
            assert(self.is_first(key, at));
        }
    }
}

impl<V> View for StringMap<V> {
    type V = Map<Seq<char>, V>;

    closed spec fn view(&self) -> Map<Seq<char>, V> {
        Map::new(
            |key: Seq<char>| self.has_entry(key),
            |key: Seq<char>| self.entries[self.position(key)].1,
        )
    }
}

} // verus!
