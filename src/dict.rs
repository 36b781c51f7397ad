//! The word table: names bound to the lists they expand to.
use vstd::prelude::*;

use crate::atom::{JkList, Value};

verus! {

/// The word table of a fiber: each name bound to the list it expands to.
pub struct JkDict {
    entries: Vec<(String, JkList)>,
}

impl JkDict {
    /// No name is bound twice.
    pub closed spec fn wf(&self) -> bool {
        forall|i: int, j: int|
            0 <= i < self.entries@.len() && 0 <= j < self.entries@.len() && (
            #[trigger] self.entries@[i]).0@ == (#[trigger] self.entries@[j]).0@ ==> i == j
    }

    spec fn holds(&self, k: Seq<char>, i: int) -> bool {
        0 <= i < self.entries@.len() && self.entries@[i].0@ == k
    }

    pub closed spec fn view(&self) -> Map<Seq<char>, Seq<Value>> {
        Map::new(
            |k: Seq<char>| exists|i: int| self.holds(k, i),
            |k: Seq<char>| self.entries@[choose|i: int| self.holds(k, i)].1@,
        )
    }

    pub fn new() -> (r: JkDict)
        ensures
            r.wf(),
            r.view() == Map::<Seq<char>, Seq<Value>>::empty(),
    {
        let r = JkDict { entries: Vec::new() };
        assert(r.view() =~= Map::<Seq<char>, Seq<Value>>::empty());
        r
    }

    /// Position of the entry named `name`, if there is one.
    fn find(&self, name: &String) -> (r: Option<usize>)
        requires
            self.wf(),
        ensures
            match r {
                Some(i) => self.holds(name@, i as int),
                None => !self.view().contains_key(name@),
            },
    {
        let mut i: usize = 0;
        while i < self.entries.len()
            invariant
                i <= self.entries@.len(),
                forall|j: int| 0 <= j < i ==> !self.holds(name@, j),
            decreases self.entries@.len() - i,
        {
            if self.entries[i].0 == *name {
                return Some(i);
            }
            i = i + 1;
        }
        None
    }

    /// The list bound to `name`.
    pub fn get(&self, name: &String) -> (r: Option<&JkList>)
        requires
            self.wf(),
        ensures
            match r {
                Some(l) => self.view().contains_key(name@) && l@ == self.view()[name@],
                None => !self.view().contains_key(name@),
            },
    {
        match self.find(name) {
            Some(i) => {
                proof {
                    let c = choose|j: int| self.holds(name@, j);
                    assert(self.holds(name@, c));
                    assert(self.entries@[c].0@ == self.entries@[i as int].0@);
                }
                Some(&self.entries[i].1)
            },
            None => None,
        }
    }

    proof fn lemma_at(&self, k: Seq<char>, i: int)
        requires
            self.wf(),
            self.holds(k, i),
        ensures
            self.view().contains_key(k),
            self.view()[k] == self.entries@[i].1@,
    {
        let c = choose|j: int| self.holds(k, j);
        assert(self.holds(k, c));
    }

    /// Binds `name` to `body`, replacing any earlier binding of it.
    pub fn insert(&mut self, name: String, body: JkList)
        requires
            old(self).wf(),
        ensures
            final(self).wf(),
            final(self).view() == old(self).view().insert(name@, body@),
    {
        let ghost k = name@;
        let ghost bv = body@;
        let ghost pre = *self;
        let pos = self.find(&name);
        let ghost n = pre.entries@.len() as int;
        let ghost at: int;
        match pos {
            Some(i) => {
                self.entries.set(i, (name, body));
                proof {
                    at = i as int;
                }
            },
            None => {
                self.entries.push((name, body));
                proof {
                    at = n;
                }
            },
        }
        proof {
            assert(self.holds(k, at));
            assert forall|j: int| 0 <= j < self.entries@.len() && j != at implies
                #[trigger] self.entries@[j] == pre.entries@[j] && pre.entries@[j].0@ != k by {
                if pre.entries@[j].0@ == k {
                    assert(pre.holds(k, j));
                    if pos is None {
                        assert(pre.view().contains_key(k));
                    }
                }
            }
            assert forall|a: int, b: int|
                0 <= a < self.entries@.len() && 0 <= b < self.entries@.len() && (
                #[trigger] self.entries@[a]).0@ == (#[trigger] self.entries@[b]).0@ implies a
                == b by {
                if a != at && b != at {
                    assert(self.entries@[a] == pre.entries@[a]);
                    assert(self.entries@[b] == pre.entries@[b]);
                } else if a != at {
                    assert(self.entries@[a] == pre.entries@[a]);
                } else if b != at {
                    assert(self.entries@[b] == pre.entries@[b]);
                }
            }
            self.lemma_at(k, at);
            let target = pre.view().insert(k, bv);
            assert forall|q: Seq<char>| #[trigger] self.view().contains_key(q)
                == target.contains_key(q) && (self.view().contains_key(q) ==> self.view()[q]
                == target[q]) by {
                if q == k {
                } else if self.view().contains_key(q) {
                    let c = choose|j: int| self.holds(q, j);
                    assert(self.holds(q, c));
                    assert(self.entries@[c] == pre.entries@[c]);
                    assert(pre.holds(q, c));
                    pre.lemma_at(q, c);
                    self.lemma_at(q, c);
                }
                if q != k && pre.view().contains_key(q) {
                    let c = choose|j: int| pre.holds(q, j);
                    assert(pre.holds(q, c));
                    assert(c != at);
                    assert(self.entries@[c] == pre.entries@[c]);
                    assert(self.holds(q, c));
                    pre.lemma_at(q, c);
                    self.lemma_at(q, c);
                }
            }
            assert(self.view() =~= target);
        }
    }
}

} // verus!
