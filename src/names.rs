//! A small map keyed by names, kept as a list of entries with distinct names.
use vstd::prelude::*;

verus! {

/// One entry of a [`NameMap`].
pub struct Named<V> {
    pub name: String,
    pub value: V,
}

/// A map from names to values; at most one entry per name.
pub struct NameMap<V> {
    entries: Vec<Named<V>>,
    contents: Ghost<Map<Seq<char>, V>>,
}

impl<V> View for NameMap<V> {
    type V = Map<Seq<char>, V>;

    closed spec fn view(&self) -> Map<Seq<char>, V> {
        self.contents@
    }
}

impl<V> NameMap<V> {
    /// The entries have distinct names and hold exactly what the view holds.
    pub closed spec fn wf(&self) -> bool {
        &&& forall|i: int, j: int|
            0 <= i < j < self.entries@.len() ==> self.entries@[i].name@ != self.entries@[j].name@
        &&& forall|i: int|
            0 <= i < self.entries@.len() ==> #[trigger] self.contents@.contains_key(
                self.entries@[i].name@,
            ) && self.contents@[self.entries@[i].name@] == self.entries@[i].value
        &&& forall|k: Seq<char>|
            #[trigger] self.contents@.contains_key(k) ==> exists|i: int|
                0 <= i < self.entries@.len() && self.entries@[i].name@ == k
    }

    pub fn new() -> (r: Self)
        ensures
            r.wf(),
            r@ == Map::<Seq<char>, V>::empty(),
    {
        NameMap { entries: Vec::new(), contents: Ghost(Map::empty()) }
    }

    /// The position of the entry named `name`, if there is one.
    fn position(&self, name: &str) -> (r: Option<usize>)
        requires
            self.wf(),
        ensures
            match r {
                Some(i) => i < self.entries@.len() && self.entries@[i as int].name@ == name@,
                None => !self@.contains_key(name@),
            },
    {
        let key = name.to_owned();
        let mut i: usize = 0;
        while i < self.entries.len()
            invariant
                self.wf(),
                key@ == name@,
                i <= self.entries@.len(),
                forall|j: int| 0 <= j < i ==> self.entries@[j].name@ != name@,
            decreases self.entries@.len() - i,
        {
            if self.entries[i].name == key {
                return Some(i);
            }
            i = i + 1;
        }
        None
    }

    pub fn get(&self, name: &str) -> (r: Option<&V>)
        requires
            self.wf(),
        ensures
            match r {
                Some(v) => self@.contains_key(name@) && *v == self@[name@],
                None => !self@.contains_key(name@),
            },
    {
        match self.position(name) {
            Some(i) => {
                assert(self.contents@.contains_key(self.entries@[i as int].name@));
                Some(&self.entries[i].value)
            },
            None => None,
        }
    }

    /// Sets the value under `name`, replacing any earlier one.
    pub fn insert(&mut self, name: String, value: V)
        requires
            old(self).wf(),
        ensures
            final(self).wf(),
            final(self)@ == old(self)@.insert(name@, value),
    {
        let ghost before = self@;
        let ghost key = name@;
        match self.position(name.as_str()) {
            Some(i) => {
                let ghost v = value;
                self.entries.set(i, Named { name, value });
                self.contents = Ghost(before.insert(key, v));
                assert forall|j: int| 0 <= j < self.entries@.len() implies #[trigger] self.contents@.contains_key(
                    self.entries@[j].name@) && self.contents@[self.entries@[j].name@] == self.entries@[j].value by {
                    if j != i {
                        assert(old(self).contents@.contains_key(old(self).entries@[j].name@));
                    }
                }
                assert forall|k: Seq<char>| #[trigger] self.contents@.contains_key(k) implies exists|j: int|
                    0 <= j < self.entries@.len() && self.entries@[j].name@ == k by {
                    if k != key {
                        let j = choose|j: int| 0 <= j < old(self).entries@.len() && old(self).entries@[j].name@ == k;
                        assert(self.entries@[j].name@ == k);
                    } else {
                        assert(self.entries@[i as int].name@ == k);
                    }
                }
            },
            None => {
                let ghost v = value;
                self.entries.push(Named { name, value });
                self.contents = Ghost(before.insert(key, v));
                let ghost n = self.entries@.len() - 1;
                assert forall|k: Seq<char>| #[trigger] self.contents@.contains_key(k) implies exists|j: int|
                    0 <= j < self.entries@.len() && self.entries@[j].name@ == k by {
                    if k != key {
                        let j = choose|j: int| 0 <= j < old(self).entries@.len() && old(self).entries@[j].name@ == k;
                        assert(self.entries@[j].name@ == k);
                    } else {
                        assert(self.entries@[n].name@ == k);
                    }
                }
            },
        }
    }

    /// Takes out the entry named `name`; returns whether there was one.
    pub fn remove(&mut self, name: &str) -> (r: bool)
        requires
            old(self).wf(),
        ensures
            final(self).wf(),
            final(self)@ == old(self)@.remove(name@),
            r == old(self)@.contains_key(name@),
    {
        let ghost before = self@;
        match self.position(name) {
            Some(i) => {
                let ghost old_entries = self.entries@;
                self.entries.remove(i);
                self.contents = Ghost(before.remove(name@));
                assert forall|k: Seq<char>| #[trigger] self.contents@.contains_key(k) implies exists|j: int|
                    0 <= j < self.entries@.len() && self.entries@[j].name@ == k by {
                    let j = choose|j: int| 0 <= j < old_entries.len() && old_entries[j].name@ == k;
                    if j < i {
                        assert(self.entries@[j].name@ == k);
                    } else {
                        assert(j != i);
                        assert(self.entries@[j - 1].name@ == k);
                    }
                }
                true
            },
            None => {
                assert(before.remove(name@) =~= before);
                false
            },
        }
    }

    /// The names of all entries, each once, in no particular order.
    pub fn names(&self) -> (r: Vec<String>)
        requires
            self.wf(),
        ensures
            r@.len() == self@.dom().len(),
            forall|i: int, j: int| 0 <= i < j < r@.len() ==> r@[i]@ != r@[j]@,
            forall|k: Seq<char>| self@.contains_key(k) <==> exists|i: int| 0 <= i < r@.len() && r@[i]@ == k,
    {
        let mut out: Vec<String> = Vec::new();
        let mut i: usize = 0;
        while i < self.entries.len()
            invariant
                self.wf(),
                i <= self.entries@.len(),
                out@.len() == i,
                forall|j: int| 0 <= j < i ==> out@[j]@ == self.entries@[j].name@,
            decreases self.entries@.len() - i,
        {
            out.push(self.entries[i].name.clone());
            i = i + 1;
        }
        proof {
            self.lemma_dom_len();
        }
        assert forall|k: Seq<char>| self@.contains_key(k) <==> exists|i: int| 0 <= i < out@.len() && out@[i]@ == k by {
            if self@.contains_key(k) {
                let j = choose|j: int| 0 <= j < self.entries@.len() && self.entries@[j].name@ == k;
                assert(out@[j]@ == k);
            }
            if exists|i: int| 0 <= i < out@.len() && out@[i]@ == k {
                let j = choose|j: int| 0 <= j < out@.len() && out@[j]@ == k;
                assert(self.contents@.contains_key(self.entries@[j].name@));
            }
        }
        out
    }

    /// The map holds one key per entry.
    proof fn lemma_dom_len(&self)
        requires
            self.wf(),
        ensures
            self@.dom().len() == self.entries@.len(),
    {
        let names = self.entries@.map_values(|e: Named<V>| e.name@);
        assert(names.no_duplicates()) by {
            assert forall|i: int, j: int| 0 <= i < names.len() && 0 <= j < names.len() && i != j implies names[i] != names[j] by {
                if i < j {
                } else {
                }
            }
        }
        assert(names.to_set() =~= self@.dom()) by {
            assert forall|k: Seq<char>| names.to_set().contains(k) <==> self@.dom().contains(k) by {
                if self@.dom().contains(k) {
                    let j = choose|j: int| 0 <= j < self.entries@.len() && self.entries@[j].name@ == k;
                    assert(names[j] == k);
                }
                if names.to_set().contains(k) {
                    let j = choose|j: int| 0 <= j < names.len() && names[j] == k;
                    assert(self.contents@.contains_key(self.entries@[j].name@));
                }
            }
        }
        names.unique_seq_to_set();
    }
}

} // verus!
