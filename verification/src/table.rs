//! A finite map keyed by account or id numbers, kept as a list of distinct
//! keys with their values.

use vstd::prelude::*;

verus! {

/// The keys of the entries are pairwise distinct.
pub open spec fn keys_distinct<T>(s: Seq<(u64, T)>) -> bool {
    forall|i: int, j: int| 0 <= i < s.len() && 0 <= j < s.len() && i != j ==> s[i].0 != s[j].0
}

/// The map that a list of entries stands for.
pub open spec fn to_map<T>(s: Seq<(u64, T)>) -> Map<u64, T>
    decreases s.len(),
{
    if s.len() == 0 {
        Map::empty()
    } else {
        to_map(s.drop_last()).insert(s.last().0, s.last().1)
    }
}

/// A key is in the map exactly when some entry carries it, and each entry's
/// value is the map's value at its key.
pub proof fn lemma_to_map<T>(s: Seq<(u64, T)>)
    requires
        keys_distinct(s),
    ensures
        forall|k: u64|
            #![trigger to_map(s).contains_key(k)]
            to_map(s).contains_key(k) <==> exists|i: int| 0 <= i < s.len() && s[i].0 == k,
        forall|i: int| 0 <= i < s.len() ==> #[trigger] to_map(s)[s[i].0] == s[i].1,
    decreases s.len(),
{
    if s.len() > 0 {
        let t = s.drop_last();
        lemma_to_map(t);
        assert forall|k: u64| #![trigger to_map(s).contains_key(k)]
            to_map(s).contains_key(k) <==> exists|i: int| 0 <= i < s.len() && s[i].0 == k by {
            if to_map(s).contains_key(k) && k != s.last().0 {
                assert(to_map(t).contains_key(k));
                let i = choose|i: int| 0 <= i < t.len() && t[i].0 == k;
                assert(s[i].0 == k);
            }
            if exists|i: int| 0 <= i < s.len() && s[i].0 == k {
                let i = choose|i: int| 0 <= i < s.len() && s[i].0 == k;
                if i < s.len() - 1 {
                    assert(t[i].0 == k);
                    assert(to_map(t).contains_key(k));
                }
            }
        }
        assert forall|i: int| 0 <= i < s.len() implies #[trigger] to_map(s)[s[i].0] == s[i].1 by {
            if i < s.len() - 1 {
                assert(t[i] == s[i]);
                assert(s[i].0 != s.last().0);
                assert(to_map(t)[t[i].0] == t[i].1);
            }
        }
    }
}

/// The entries after setting `k` to `v`: the entry for `k` is replaced in
/// place, or a new entry is appended when there is none.
pub open spec fn inserted_entries<T>(s: Seq<(u64, T)>, k: u64, v: T) -> Seq<(u64, T)> {
    if exists|i: int| 0 <= i < s.len() && s[i].0 == k {
        s.update(choose|i: int| 0 <= i < s.len() && s[i].0 == k, (k, v))
    } else {
        s.push((k, v))
    }
}

/// A finite map from `u64` keys to values.
pub struct Table<T> {
    pub entries: Vec<(u64, T)>,
}

impl<T> View for Table<T> {
    type V = Map<u64, T>;

    open spec fn view(&self) -> Map<u64, T> {
        to_map(self.entries@)
    }
}

impl<T> Table<T> {
    /// Well-formedness: no key occurs twice.
    pub open spec fn wf(&self) -> bool {
        keys_distinct(self.entries@)
    }

    /// An empty table.
    pub fn new() -> (t: Table<T>)
        ensures
            t.wf(),
            t@ == Map::<u64, T>::empty(),
            t.entries@.len() == 0,
    {
        Table { entries: Vec::new() }
    }

    /// The position of the entry for `k`, if there is one.
    pub fn find(&self, k: u64) -> (r: Option<usize>)
        requires
            self.wf(),
        ensures
            match r {
                Some(i) => i < self.entries@.len() && self.entries@[i as int].0 == k
                    && self@.contains_key(k),
                None => !self@.contains_key(k),
            },
    {
        proof {
            lemma_to_map(self.entries@);
        }
        let mut i: usize = 0;
        while i < self.entries.len()
            invariant
                self.wf(),
                i <= self.entries@.len(),
                forall|j: int| 0 <= j < i ==> self.entries@[j].0 != k,
            decreases self.entries@.len() - i,
        {
            if self.entries[i].0 == k {
                proof {
                    lemma_to_map(self.entries@);
                    assert(self.entries@[i as int].0 == k);
                    assert(self@.contains_key(k));
                }
                return Some(i);
            }
            i = i + 1;
        }
        proof {
            lemma_to_map(self.entries@);
        }
        None
    }

    /// Whether `k` has a value.
    pub fn contains(&self, k: u64) -> (r: bool)
        requires
            self.wf(),
        ensures
            r == self@.contains_key(k),
    {
        self.find(k).is_some()
    }

    /// The value at `k`, if any.
    pub fn get(&self, k: u64) -> (r: Option<&T>)
        requires
            self.wf(),
        ensures
            r == (if self@.contains_key(k) {
                Some(&self@[k])
            } else {
                None::<&T>
            }),
    {
        proof {
            lemma_to_map(self.entries@);
        }
        match self.find(k) {
            Some(i) => Some(&self.entries[i].1),
            None => None,
        }
    }

    /// Sets the value at `k`.
    pub fn insert(&mut self, k: u64, v: T)
        requires
            old(self).wf(),
        ensures
            final(self).wf(),
            final(self)@ == old(self)@.insert(k, v),
            final(self).entries@ == inserted_entries(old(self).entries@, k, v),
    {
        proof {
            lemma_to_map(self.entries@);
        }
        match self.find(k) {
            Some(i) => {
                let ghost s = self.entries@;
                self.entries.set(i, (k, v));
                proof {
                    let c = choose|j: int| 0 <= j < s.len() && s[j].0 == k;
                    assert(0 <= c < s.len() && s[c].0 == k);
                    assert(c == i);
                    let s2 = self.entries@;
                    assert(s2 == s.update(i as int, (k, v)));
                    assert(keys_distinct(s2));
                    lemma_to_map(s2);
                    assert forall|key: u64|
                        #[trigger] to_map(s2).contains_key(key) == to_map(s).insert(k, v).contains_key(key)
                        by {
                        if to_map(s).contains_key(key) {
                            let j = choose|j: int| 0 <= j < s.len() && s[j].0 == key;
                            assert(s2[j].0 == key);
                        }
                    }
                    assert forall|key: u64| #[trigger] to_map(s2).contains_key(key) implies
                        to_map(s2)[key] == to_map(s).insert(k, v)[key] by {
                        let j = choose|j: int| 0 <= j < s2.len() && s2[j].0 == key;
                        if j != i {
                            assert(s[j] == s2[j]);
                        }
                    }
                    assert(to_map(s2) =~= to_map(s).insert(k, v));
                }
            },
            None => {
                let ghost s = self.entries@;
                self.entries.push((k, v));
                proof {
                    assert(!(exists|j: int| 0 <= j < s.len() && s[j].0 == k)) by {
                        if exists|j: int| 0 <= j < s.len() && s[j].0 == k {
                            let j = choose|j: int| 0 <= j < s.len() && s[j].0 == k;
                            assert(to_map(s).contains_key(k));
                        }
                    }
                    let s2 = self.entries@;
                    assert(s2.drop_last() =~= s);
                    assert forall|a: int, b: int|
                        0 <= a < s2.len() && 0 <= b < s2.len() && a != b implies s2[a].0 != s2[b].0 by {
                        if a == s.len() as int {
                            assert(to_map(s).contains_key(s[b].0));
                        } else if b == s.len() as int {
                            assert(to_map(s).contains_key(s[a].0));
                        }
                    }
                }
            },
        }
    }

    /// Removes the value at `k` and returns it, if there was one.
    pub fn take(&mut self, k: u64) -> (r: Option<T>)
        requires
            old(self).wf(),
        ensures
            final(self).wf(),
            final(self)@ == old(self)@.remove(k),
            r == (if old(self)@.contains_key(k) {
                Some(old(self)@[k])
            } else {
                None::<T>
            }),
    {
        proof {
            lemma_to_map(self.entries@);
        }
        match self.find(k) {
            Some(i) => {
                let ghost s = self.entries@;
                let (_, v) = self.entries.remove(i);
                proof {
                    let s2 = self.entries@;
                    assert(s2 == s.remove(i as int));
                    assert forall|a: int, b: int|
                        0 <= a < s2.len() && 0 <= b < s2.len() && a != b implies s2[a].0 != s2[b].0 by {
                        let a0 = if a < i { a } else { a + 1 };
                        let b0 = if b < i { b } else { b + 1 };
                        assert(s2[a] == s[a0]);
                        assert(s2[b] == s[b0]);
                    }
                    lemma_to_map(s2);
                    assert forall|key: u64|
                        #[trigger] to_map(s2).contains_key(key) == to_map(s).remove(k).contains_key(key)
                        by {
                        if to_map(s2).contains_key(key) {
                            let j = choose|j: int| 0 <= j < s2.len() && s2[j].0 == key;
                            let j0 = if j < i { j } else { j + 1 };
                            assert(s2[j] == s[j0]);
                            assert(j0 != i);
                        }
                        if to_map(s).remove(k).contains_key(key) {
                            let j = choose|j: int| 0 <= j < s.len() && s[j].0 == key;
                            assert(j != i);
                            let j2 = if j < i { j } else { j - 1 };
                            assert(s2[j2] == s[j]);
                        }
                    }
                    assert forall|key: u64| #[trigger] to_map(s2).contains_key(key) implies
                        to_map(s2)[key] == to_map(s).remove(k)[key] by {
                        let j = choose|j: int| 0 <= j < s2.len() && s2[j].0 == key;
                        let j0 = if j < i { j } else { j + 1 };
                        assert(s2[j] == s[j0]);
                    }
                    assert(to_map(s2) =~= to_map(s).remove(k));
                }
                Some(v)
            },
            None => {
                proof {
                    assert(self@ =~= self@.remove(k));
                }
                None
            },
        }
    }
}

} // verus!
