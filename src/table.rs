//! Key-indexed durable storage: a finite map from storage slots to values.
use vstd::prelude::*;
use crate::word::{Address, Uint256};

verus! {

/// A composite storage key: voter, group, post and sub-post.
/// Fields a mapping does not use hold zero.
#[derive(Clone, Copy, Debug, PartialEq, Eq, Structural, Hash)]
pub struct Slot {
    pub voter: Address,
    pub group: Uint256,
    pub post: Uint256,
    pub sub_post: Uint256,
}

/// A map from slots to values, with unique keys.
pub struct Table<V> {
    keys: Vec<Slot>,
    vals: Vec<V>,
    contents: Ghost<Map<Slot, V>>,
}

impl<V> View for Table<V> {
    type V = Map<Slot, V>;

    closed spec fn view(&self) -> Map<Slot, V> {
        self.contents@
    }
}

impl<V> Table<V> {
    /// Keys are unique, and each key stands beside its value.
    pub closed spec fn wf(&self) -> bool {
        &&& self.keys.len() == self.vals.len()
        &&& forall|i: int, j: int|
            0 <= i < j < self.keys.len() ==> self.keys[i] != self.keys[j]
        &&& forall|k: Slot| #[trigger]
            self.contents@.contains_key(k) <==> self.keys@.contains(k)
        &&& forall|i: int|
            0 <= i < self.keys.len() ==> self.contents@[#[trigger] self.keys[i]] == self.vals[i]
    }

    pub fn new() -> (r: Table<V>)
        ensures
            r.wf(),
            r@ == Map::<Slot, V>::empty(),
    {
        Table { keys: Vec::new(), vals: Vec::new(), contents: Ghost(Map::empty()) }
    }

    fn find(&self, k: &Slot) -> (r: Option<usize>)
        requires
            self.wf(),
        ensures
            match r {
                Some(i) => i < self.keys.len() && self.keys[i as int] == *k,
                None => !self@.contains_key(*k),
            },
    {
        let mut i: usize = 0;
        while i < self.keys.len()
            invariant
                self.wf(),
                i <= self.keys.len(),
                forall|j: int| 0 <= j < i ==> self.keys[j] != *k,
            decreases self.keys.len() - i,
        {
            if self.keys[i] == *k {
                return Some(i);
            }
            i = i + 1;
        }
        None
    }

    /// The value stored at `k`, if any.
    pub fn get(&self, k: &Slot) -> (r: Option<&V>)
        requires
            self.wf(),
        ensures
            match r {
                Some(v) => self@.contains_key(*k) && *v == self@[*k],
                None => !self@.contains_key(*k),
            },
    {
        match self.find(k) {
            Some(i) => Some(&self.vals[i]),
            None => None,
        }
    }

    /// Stores `v` at `k`, replacing any earlier value.
    pub fn set(&mut self, k: Slot, v: V)
        requires
            old(self).wf(),
        ensures
            final(self).wf(),
            final(self)@ == old(self)@.insert(k, v),
    {
        match self.find(&k) {
            Some(i) => {
                self.vals.set(i, v);
                self.contents = Ghost(self.contents@.insert(k, self.vals@[i as int]));
            },
            None => {
                self.keys.push(k);
                self.vals.push(v);
                let ghost n = self.keys.len() - 1;
                self.contents = Ghost(self.contents@.insert(k, self.vals@[n]));
                proof {
                    assert forall|k2: Slot| #[trigger]
                        self.contents@.contains_key(k2) <==> self.keys@.contains(k2) by {
                        if k2 == k {
                            assert(self.keys[n] == k2);
                        } else {
                            if self.keys@.contains(k2) {
                                let j = choose|j: int| 0 <= j < self.keys.len() && self.keys[j] == k2;
                                assert(old(self).keys[j] == k2);
                            }
                            if old(self).keys@.contains(k2) {
                                let j = choose|j: int| 0 <= j < old(self).keys.len() && old(self).keys[j] == k2;
                                assert(self.keys[j] == k2);
                            }
                        }
                    }
                }
            },
        }
    }
}

} // verus!
