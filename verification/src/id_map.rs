//! A map from identifiers to values.

use vstd::prelude::*;
use vstd::string::*;

verus! {

/// A map from identifiers to values, in which each identifier stands once.
pub struct IdMap<V> {
    entries: Vec<(String, V)>,
}

impl<V> View for IdMap<V> {
    type V = Map<Seq<char>, V>;

    closed spec fn view(&self) -> Map<Seq<char>, V> {
        Map::new(
            |id: Seq<char>| self.ids().contains(id),
            |id: Seq<char>| self.entries@[self.ids().index_of(id)].1,
        )
    }
}

impl<V> IdMap<V> {
    /// The identifiers in the order in which [`IdMap::values`] lists what they stand
    /// for.
    pub closed spec fn ids(&self) -> Seq<Seq<char>> {
        self.entries@.map_values(|entry: (String, V)| entry.0@)
    }

    /// Each identifier stands once.
    pub open spec fn wf(&self) -> bool {
        &&& self.ids().no_duplicates()
        &&& self@.dom() == self.ids().to_set()
    }

    proof fn lemma_entry(&self, i: int)
        requires
            self.ids().no_duplicates(),
            0 <= i < self.entries@.len(),
        ensures
            self@.contains_key(self.entries@[i].0@),
            self@[self.entries@[i].0@] == self.entries@[i].1,
    {
        assert(self.ids()[i] == self.entries@[i].0@);
        assert(self.ids().contains(self.entries@[i].0@));
        assert(self.ids().index_of(self.entries@[i].0@) == i);
    }

    proof fn lemma_dom(&self)
        ensures
            self@.dom() == self.ids().to_set(),
    {
        assert(self@.dom() =~= self.ids().to_set());
    }

    /// The empty map.
    pub fn new() -> (res: Self)
        ensures
            res@ == Map::<Seq<char>, V>::empty(),
            res.wf(),
    {
        let res = IdMap { entries: Vec::new() };
        proof {
            res.lemma_dom();
        }
        assert(res@ =~= Map::<Seq<char>, V>::empty());
        res
    }

    /// The place of the entry of `id`.
    fn place(&self, id: &str) -> (res: Option<usize>)
        ensures
            match res {
                Some(i) => i < self.entries@.len() && self.entries@[i as int].0@ == id@,
                None => !self.ids().contains(id@),
            },
    {
        let wanted = id.to_owned();
        let mut i: usize = 0;
        while i < self.entries.len()
            invariant
                i <= self.entries@.len(),
                wanted@ == id@,
                forall|j: int| 0 <= j < i ==> (#[trigger] self.ids()[j]) != id@,
            decreases self.entries@.len() - i,
        {
            if self.entries[i].0 == wanted {
                return Some(i);
            }
            i = i + 1;
        }
        None
    }

    /// What `id` stands for.
    pub fn get(&self, id: &str) -> (res: Option<&V>)
        requires
            self.wf(),
        ensures
            match res {
                Some(value) => self@.contains_key(id@) && *value == self@[id@],
                None => !self@.contains_key(id@),
            },
    {
        match self.place(id) {
            Some(i) => {
                proof {
                    self.lemma_entry(i as int);
                }
                Some(&self.entries[i].1)
            },
            None => None,
        }
    }

    /// Takes the entry of `id` out of the map.
    pub fn remove(&mut self, id: &str) -> (res: Option<V>)
        requires
            old(self).wf(),
        ensures
            match res {
                Some(value) => old(self)@.contains_key(id@) && value == old(self)@[id@],
                None => !old(self)@.contains_key(id@),
            },
            final(self)@ == old(self)@.remove(id@),
            final(self).wf(),
    {
        match self.place(id) {
            Some(i) => {
                let ghost before = *self;
                let entry = self.entries.remove(i);
                proof {
                    before.lemma_entry(i as int);
                    assert(self.ids() =~= before.ids().remove(i as int));
                    self.lemma_dom();
                    assert forall|id2: Seq<char>| #[trigger]
                        self@.contains_key(id2) == before@.remove(id@).contains_key(id2) by {
                        if self.ids().contains(id2) {
                            let j = self.ids().index_of(id2);
                            let k = if j < i { j } else { j + 1 };
                            assert(before.ids()[k] == id2);
                            assert(before.ids()[i as int] == id@);
                        }
                        if before.ids().contains(id2) && id2 != id@ {
                            let k = before.ids().index_of(id2);
                            let j = if k < i { k } else { k - 1 };
                            assert(self.ids()[j] == id2);
                        }
                    }
                    assert forall|id2: Seq<char>| #[trigger] self@.contains_key(id2) implies self@[id2]
                        == before@.remove(id@)[id2] by {
                        let j = self.ids().index_of(id2);
                        let k = if j < i { j } else { j + 1 };
                        self.lemma_entry(j);
                        before.lemma_entry(k);
                        assert(before.ids()[k] == id2);
                        assert(self.entries@[j] == before.entries@[k]);
                    }
                    assert(self@ =~= before@.remove(id@));
                }
                Some(entry.1)
            },
            None => {
                assert(self@ =~= self@.remove(id@));
                None
            },
        }
    }

    /// Lets `id` stand for `value`. What it stood for before is handed back.
    pub fn insert(&mut self, id: String, value: V) -> (res: Option<V>)
        requires
            old(self).wf(),
        ensures
            match res {
                Some(previous) => old(self)@.contains_key(id@) && previous == old(self)@[id@],
                None => !old(self)@.contains_key(id@),
            },
            final(self)@ == old(self)@.insert(id@, value),
            final(self).wf(),
    {
        let previous = self.remove(id.as_str());
        let ghost rest = *self;
        let ghost name = id@;
        self.entries.push((id, value));
        proof {
            assert(self.ids() =~= rest.ids().push(name));
            self.lemma_dom();
            assert(!rest@.dom().contains(name));
            assert(!rest.ids().to_set().contains(name));
            assert forall|id2: Seq<char>| #[trigger]
                self@.contains_key(id2) == rest@.insert(name, value).contains_key(id2) by {
                if rest.ids().contains(id2) {
                    let k = rest.ids().index_of(id2);
                    assert(self.ids()[k] == id2);
                }
                assert(self.ids()[rest.ids().len() as int] == name);
            }
            assert forall|id2: Seq<char>| #[trigger] self@.contains_key(id2) implies self@[id2]
                == rest@.insert(name, value)[id2] by {
                let k = self.ids().index_of(id2);
                self.lemma_entry(k);
                if k < rest.ids().len() {
                    rest.lemma_entry(k);
                    assert(rest.ids()[k] == id2);
                }
            }
            assert(self@ =~= rest@.insert(name, value));
            assert(self@ =~= old(self)@.insert(name, value));
        }
        previous
    }

    /// Every value of the map, in the order of [`IdMap::ids`].
    pub fn values(&self) -> (res: Vec<&V>)
        requires
            self.wf(),
        ensures
            res@.len() == self.ids().len(),
            forall|i: int|
                0 <= i < res@.len() ==> *(#[trigger] res@[i]) == self@[self.ids()[i]],
    {
        let mut res: Vec<&V> = Vec::new();
        let mut i: usize = 0;
        while i < self.entries.len()
            invariant
                self.wf(),
                i <= self.entries@.len(),
                res@.len() == i,
                forall|j: int| 0 <= j < i ==> *(#[trigger] res@[j]) == self@[self.ids()[j]],
            decreases self.entries@.len() - i,
        {
            proof {
                self.lemma_entry(i as int);
            }
            res.push(&self.entries[i].1);
            i = i + 1;
        }
        res
    }
}

} // verus!
