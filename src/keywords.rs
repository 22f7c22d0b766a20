//! The keyword registry: named build functions from a lazy self value to a
//! property.
use vstd::prelude::*;

verus! {

/// Table of keyword build functions, keyed by name. Registering a name again
/// replaces its earlier build function.
pub struct GenericTemplateBuildKeywordFnMap<K> {
    entries: Vec<(String, K)>,
    map: Ghost<Map<Seq<char>, K>>,
}

impl<K> View for GenericTemplateBuildKeywordFnMap<K> {
    type V = Map<Seq<char>, K>;

    closed spec fn view(&self) -> Map<Seq<char>, K> {
        self.map@
    }
}

impl<K> GenericTemplateBuildKeywordFnMap<K> {
    /// The entries hold each name once, and the view maps each name to the
    /// build function stored with it.
    pub closed spec fn wf(&self) -> bool {
        &&& forall|i: int, j: int|
            0 <= i < j < self.entries@.len() ==> #[trigger] self.entries@[i].0@
                != #[trigger] self.entries@[j].0@
        &&& forall|i: int|
            0 <= i < self.entries@.len() ==> {
                let e = #[trigger] self.entries@[i];
                self.map@.contains_key(e.0@) && self.map@[e.0@] == e.1
            }
        &&& forall|n: Seq<char>|
            #[trigger] self.map@.contains_key(n) ==> exists|i: int|
                0 <= i < self.entries@.len() && #[trigger] self.entries@[i].0@ == n
    }

    pub fn new() -> (r: Self)
        ensures
            r.wf(),
            r@ == Map::<Seq<char>, K>::empty(),
    {
        GenericTemplateBuildKeywordFnMap { entries: Vec::new(), map: Ghost(Map::empty()) }
    }

    /// Position of the entry named `name`, if any.
    fn position(&self, name: &String) -> (r: Option<usize>)
        requires
            self.wf(),
        ensures
            r is Some <==> self@.contains_key(name@),
            r matches Some(i) ==> i < self.entries@.len() && self.entries@[i as int].0@ == name@,
    {
        let mut i: usize = 0;
        while i < self.entries.len()
            invariant
                self.wf(),
                i <= self.entries@.len(),
                forall|j: int| 0 <= j < i ==> #[trigger] self.entries@[j].0@ != name@,
            decreases self.entries@.len() - i,
        {
            if self.entries[i].0 == *name {
                return Some(i);
            }
            i = i + 1;
        }
        None
    }

    /// Registers `build` under `name`, replacing any earlier build function of
    /// that name.
    pub fn insert(&mut self, name: String, build: K)
        requires
            old(self).wf(),
        ensures
            final(self).wf(),
            final(self)@ == old(self)@.insert(name@, build),
    {
        let ghost key = name@;
        let ghost b = build;
        let ghost mut w: int = 0;
        match self.position(&name) {
            Some(i) => {
                self.entries.set(i, (name, build));
                proof {
                    w = i as int;
                }
            },
            None => {
                self.entries.push((name, build));
                proof {
                    w = self.entries@.len() - 1;
                }
            },
        }
        self.map = Ghost(self.map@.insert(key, b));
        assert forall|n: Seq<char>| #[trigger] self.map@.contains_key(n) implies exists|i: int|
            0 <= i < self.entries@.len() && #[trigger] self.entries@[i].0@ == n by {
            if n != key {
                let i = choose|i: int|
                    0 <= i < old(self).entries@.len() && #[trigger] old(self).entries@[i].0@ == n;
                assert(self.entries@[i].0@ == n);
            } else {
                assert(self.entries@[w].0@ == n);
            }
        }
    }

    /// The build function registered under `name`, if any.
    pub fn get(&self, name: &String) -> (r: Option<&K>)
        requires
            self.wf(),
        ensures
            r is Some <==> self@.contains_key(name@),
            r matches Some(k) ==> *k == self@[name@],
    {
        match self.position(name) {
            Some(i) => Some(&self.entries[i].1),
            None => None,
        }
    }
}

} // verus!
