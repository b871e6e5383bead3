//! A table from names to entries.

use crate::text::text_eq;
use vstd::prelude::*;

verus! {

/// A table of entries, each under a name of its own.
pub struct Table<T> {
    entries: Vec<(String, T)>,
}

impl<T> Table<T> {
    /// The number of entries.
    pub closed spec fn size(self) -> nat {
        self.entries@.len()
    }

    /// The name at a place.
    pub closed spec fn name(self, i: int) -> Seq<char> {
        self.entries@[i].0@
    }

    /// The entry at a place.
    pub closed spec fn entry(self, i: int) -> T {
        self.entries@[i].1
    }

    /// No name occurs twice.
    pub closed spec fn wf(self) -> bool {
        forall|i: int, j: int|
            0 <= i < j < self.entries@.len() ==> self.entries@[i].0@ != self.entries@[j].0@
    }

    /// Whether a name occurs.
    pub closed spec fn has(self, name: Seq<char>) -> bool {
        exists|i: int| 0 <= i < self.entries@.len() && #[trigger] self.entries@[i].0@ == name
    }

    /// The place of a name.
    pub closed spec fn place(self, name: Seq<char>) -> int {
        choose|i: int| 0 <= i < self.entries@.len() && #[trigger] self.entries@[i].0@ == name
    }

    /// The table as a map from names to entries.
    pub closed spec fn map(self) -> Map<Seq<char>, T> {
        Map::new(|k: Seq<char>| self.has(k), |k: Seq<char>| self.entries@[self.place(k)].1)
    }

    /// The entry at every place is the one that the map has under its name.
    pub proof fn lemma_entry(self, i: int)
        requires
            self.wf(),
            0 <= i < self.size(),
        ensures
            self.map().contains_key(self.name(i)),
            self.map()[self.name(i)] == self.entry(i),
    {
        assert(self.entries@[i].0@ == self.name(i));
        let j = self.place(self.name(i));
        assert(self.entries@[j].0@ == self.name(i));
    }

    /// Every name of the map stands at some place.
    pub proof fn lemma_key(self, name: Seq<char>) -> (i: int)
        requires
            self.wf(),
            self.map().contains_key(name),
        ensures
            0 <= i < self.size(),
            self.name(i) == name,
            self.map()[name] == self.entry(i),
    {
        self.place(name)
    }

    /// The map has as many names as the table has entries.
    pub proof fn lemma_size(self)
        requires
            self.wf(),
        ensures
            self.map().dom().finite(),
            self.map().dom().len() == self.size(),
    {
        let names = self.entries@.map_values(|e: (String, T)| e.0@);
        assert(names.no_duplicates()) by {
            assert forall|i: int, j: int|
                0 <= i < names.len() && 0 <= j < names.len() && i != j implies names[i]
                != names[j] by {
                if i < j {
                    assert(self.entries@[i].0@ != self.entries@[j].0@);
                } else {
                    assert(self.entries@[j].0@ != self.entries@[i].0@);
                }
            }
        }
        names.unique_seq_to_set();
        assert(names.to_set() =~= self.map().dom()) by {
            assert forall|k: Seq<char>| self.map().dom().contains(k) implies names.contains(k) by {
                let i = self.place(k);
                assert(names[i] == k);
            }
            assert forall|k: Seq<char>| names.contains(k) implies self.map().dom().contains(k) by {
                let i = choose|i: int| 0 <= i < names.len() && names[i] == k;
                assert(self.entries@[i].0@ == k);
            }
        }
        names.lemma_cardinality_of_set();
    }

    /// A table without entries.
    pub fn new() -> (r: Table<T>)
        ensures
            r.wf(),
            r.size() == 0,
            r.map() == Map::<Seq<char>, T>::empty(),
    {
        let r = Table { entries: Vec::new() };
        assert(r.map() =~= Map::<Seq<char>, T>::empty());
        r
    }

    /// The number of entries.
    pub fn len(&self) -> (r: usize)
        ensures
            r == self.size(),
    {
        self.entries.len()
    }

    /// The name at a place.
    pub fn name_at(&self, i: usize) -> (r: &String)
        requires
            i < self.size(),
        ensures
            r@ == self.name(i as int),
    {
        &self.entries[i].0
    }

    /// The entry at a place.
    pub fn entry_at(&self, i: usize) -> (r: &T)
        requires
            i < self.size(),
        ensures
            *r == self.entry(i as int),
    {
        &self.entries[i].1
    }

    /// The place of a name, where it occurs.
    pub fn position(&self, name: &str) -> (r: Option<usize>)
        requires
            self.wf(),
        ensures
            match r {
                Some(i) => {
                    &&& i < self.size()
                    &&& self.name(i as int) == name@
                    &&& self.map().contains_key(name@)
                    &&& self.map()[name@] == self.entry(i as int)
                },
                None => !self.map().contains_key(name@),
            },
    {
        let mut i: usize = 0;
        while i < self.entries.len()
            invariant
                self.wf(),
                i <= self.entries@.len(),
                forall|k: int| 0 <= k < i ==> self.entries@[k].0@ != name@,
            decreases self.entries@.len() - i,
        {
            if text_eq(self.entries[i].0.as_str(), name) {
                proof {
                    self.lemma_entry(i as int);
                }
                return Some(i);
            }
            i = i + 1;
        }
        None
    }

    /// The entry under a name.
    pub fn get(&self, name: &str) -> (r: Option<&T>)
        requires
            self.wf(),
        ensures
            match r {
                Some(e) => self.map().contains_key(name@) && *e == self.map()[name@],
                None => !self.map().contains_key(name@),
            },
    {
        match self.position(name) {
            Some(i) => Some(&self.entries[i].1),
            None => None,
        }
    }

    /// The entry under a name, to be changed in place.
    pub fn get_mut(&mut self, name: &str) -> (r: Option<&mut T>)
        requires
            old(self).wf(),
        ensures
            final(self).wf(),
            final(self).size() == old(self).size(),
            match r {
                Some(e) => {
                    &&& old(self).map().contains_key(name@)
                    &&& *e == old(self).map()[name@]
                    &&& final(self).map() == old(self).map().insert(name@, *final(e))
                },
                None => {
                    &&& !old(self).map().contains_key(name@)
                    &&& final(self).map() == old(self).map()
                },
            },
    {
        match self.position(name) {
            Some(i) => {
                proof {
                    let before = *self;
                    assert forall|after: Table<T>, entry: T|
                        #![trigger after.map(), before.map().insert(name@, entry)]
                        after.entries@ == before.entries@.update(
                            i as int,
                            (before.entries@[i as int].0, entry),
                        ) implies {
                        &&& after.wf()
                        &&& after.map() == before.map().insert(name@, entry)
                    } by {
                        lemma_replaced(before, after, i as int, before.entries@[i as int].0, entry);
                    }
                }
                Some(&mut self.entries[i].1)
            },
            None => None,
        }
    }

    /// Puts an entry under a name, in place of the one that may stand there.
    pub fn insert(&mut self, name: String, entry: T)
        requires
            old(self).wf(),
        ensures
            final(self).wf(),
            final(self).map() == old(self).map().insert(name@, entry),
    {
        let ghost before = *self;
        match self.position(name.as_str()) {
            Some(i) => {
                self.entries[i] = (name, entry);
                proof {
                    lemma_replaced(before, *self, i as int, name, entry);
                }
            },
            None => {
                self.entries.push((name, entry));
                proof {
                    lemma_pushed(before, *self, name, entry);
                }
            },
        }
    }

    /// Takes out the entry under a name, where there is one.
    pub fn remove(&mut self, name: &str) -> (r: Option<T>)
        requires
            old(self).wf(),
        ensures
            final(self).wf(),
            final(self).map() == old(self).map().remove(name@),
            match r {
                Some(e) => old(self).map().contains_key(name@) && e == old(self).map()[name@],
                None => !old(self).map().contains_key(name@),
            },
    {
        let ghost before = *self;
        match self.position(name) {
            Some(i) => {
                let (_, entry) = self.entries.remove(i);
                proof {
                    lemma_removed(before, *self, i as int, name@);
                }
                Some(entry)
            },
            None => {
                assert(self.map() =~= self.map().remove(name@));
                None
            },
        }
    }
}

proof fn lemma_replaced<T>(before: Table<T>, after: Table<T>, i: int, name: String, entry: T)
    requires
        before.wf(),
        0 <= i < before.entries@.len(),
        before.entries@[i].0@ == name@,
        after.entries@ == before.entries@.update(i, (name, entry)),
    ensures
        after.wf(),
        after.map() == before.map().insert(name@, entry),
{
    let target = before.map().insert(name@, entry);
    assert forall|k: Seq<char>| #[trigger] target.dom().contains(k) implies {
        &&& after.map().dom().contains(k)
        &&& after.map()[k] == target[k]
    } by {
        let j = if k == name@ {
            i
        } else {
            before.lemma_key(k)
        };
        assert(after.entries@[j].0@ == k);
        after.lemma_entry(j);
    }
    assert forall|k: Seq<char>| #[trigger]
        after.map().dom().contains(k) implies target.dom().contains(k) by {
        let j = after.lemma_key(k);
        before.lemma_entry(j);
    }
    assert(after.map().dom() =~= target.dom());
    assert(after.map() =~= target);
}

proof fn lemma_pushed<T>(before: Table<T>, after: Table<T>, name: String, entry: T)
    requires
        before.wf(),
        !before.map().contains_key(name@),
        after.entries@ == before.entries@.push((name, entry)),
    ensures
        after.wf(),
        after.map() == before.map().insert(name@, entry),
{
    let last = before.entries@.len() as int;
    let target = before.map().insert(name@, entry);
    assert forall|k: Seq<char>| #[trigger] target.dom().contains(k) implies {
        &&& after.map().dom().contains(k)
        &&& after.map()[k] == target[k]
    } by {
        let j = if k == name@ {
            last
        } else {
            before.lemma_key(k)
        };
        assert(after.entries@[j].0@ == k);
        after.lemma_entry(j);
    }
    assert forall|k: Seq<char>| #[trigger]
        after.map().dom().contains(k) implies target.dom().contains(k) by {
        let j = after.lemma_key(k);
        if j < last {
            before.lemma_entry(j);
        }
    }
    assert(after.map().dom() =~= target.dom());
    assert(after.map() =~= target);
}

proof fn lemma_removed<T>(before: Table<T>, after: Table<T>, i: int, name: Seq<char>)
    requires
        before.wf(),
        0 <= i < before.entries@.len(),
        before.entries@[i].0@ == name,
        after.entries@ == before.entries@.remove(i),
    ensures
        after.wf(),
        after.map() == before.map().remove(name),
{
    let target = before.map().remove(name);
    assert forall|k: Seq<char>| #[trigger] target.dom().contains(k) implies {
        &&& after.map().dom().contains(k)
        &&& after.map()[k] == target[k]
    } by {
        let j = before.lemma_key(k);
        let m = if j < i {
            j
        } else {
            j - 1
        };
        assert(after.entries@[m].0@ == k);
        after.lemma_entry(m);
    }
    assert forall|k: Seq<char>| #[trigger]
        after.map().dom().contains(k) implies target.dom().contains(k) by {
        let m = after.lemma_key(k);
        let j = if m < i {
            m
        } else {
            m + 1
        };
        before.lemma_entry(j);
        assert(before.entries@[j].0@ != before.entries@[i].0@);
    }
    assert(after.map().dom() =~= target.dom());
    assert(after.map() =~= target);
}

} // verus!
