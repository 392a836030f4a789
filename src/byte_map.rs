//! A table keyed by fixed-size byte arrays (addresses, selectors), with at most one entry
//! per key.

use vstd::prelude::*;
use crate::primitives::bytes_eq;

verus! {

/// A map from `N`-byte keys to values, kept as a list of distinct keys.
#[verifier::reject_recursive_types(N)]
pub struct ByteMap<const N: usize, T> {
    entries: Vec<([u8; N], T)>,
    contents: Ghost<Map<[u8; N], T>>,
}

impl<const N: usize, T> View for ByteMap<N, T> {
    type V = Map<[u8; N], T>;

    closed spec fn view(&self) -> Map<[u8; N], T> {
        self.contents@
    }
}

impl<const N: usize, T> ByteMap<N, T> {
    /// Each key occurs once, and the list holds exactly the pairs of the map.
    pub closed spec fn wf(&self) -> bool {
        &&& forall|i: int, j: int|
            0 <= i < j < self.entries@.len() ==> (#[trigger] self.entries@[i]).0
                != (#[trigger] self.entries@[j]).0
        &&& forall|i: int|
            0 <= i < self.entries@.len() ==> #[trigger] self.contents@.contains_key(
                self.entries@[i].0,
            ) && self.contents@[self.entries@[i].0] == self.entries@[i].1
        &&& forall|a: [u8; N]|
            #[trigger] self.contents@.contains_key(a) ==> exists|i: int|
                0 <= i < self.entries@.len() && (#[trigger] self.entries@[i]).0 == a
    }

    /// An empty table.
    pub fn new() -> (r: ByteMap<N, T>)
        ensures
            r.wf(),
            r@ == Map::<[u8; N], T>::empty(),
    {
        ByteMap { entries: Vec::new(), contents: Ghost(Map::empty()) }
    }

    /// The position of `key` in the list, if it is there.
    fn position(&self, key: &[u8; N]) -> (r: Option<usize>)
        requires
            self.wf(),
        ensures
            match r {
                Some(i) => i < self.entries@.len() && self.entries@[i as int].0 == *key,
                None => !self@.contains_key(*key),
            },
    {
        let mut i: usize = 0;
        while i < self.entries.len()
            invariant
                i <= self.entries@.len(),
                forall|j: int| 0 <= j < i ==> (#[trigger] self.entries@[j]).0 != *key,
            decreases self.entries@.len() - i,
        {
            if bytes_eq(&self.entries[i].0, key) {
                return Some(i);
            }
            i += 1;
        }
        None
    }

    /// Associates `value` with `key`; returns what `key` was associated with before.
    pub fn insert(&mut self, key: [u8; N], value: T) -> (r: Option<T>)
        requires
            old(self).wf(),
        ensures
            final(self).wf(),
            final(self)@ == old(self)@.insert(key, value),
            r == (if old(self)@.contains_key(key) {
                Some(old(self)@[key])
            } else {
                None
            }),
    {
        let ghost new_contents = self.contents@.insert(key, value);
        let ghost old_entries = self.entries@;
        let ghost old_contents = self.contents@;
        match self.position(&key) {
            Some(i) => {
                let (_, previous) = self.entries.remove(i);
                self.entries.insert(i, (key, value));
                self.contents = Ghost(new_contents);
                proof {
                    assert(self.entries@ =~= old_entries.update(i as int, (key, value)));
                    assert(old_contents.contains_key(old_entries[i as int].0));
                    assert forall|j: int| 0 <= j < self.entries@.len() implies (#[trigger] self.entries@[j]).0
                        == old_entries[j].0 by {}
                    assert forall|j: int| 0 <= j < self.entries@.len() implies #[trigger] self.contents@.contains_key(
                        self.entries@[j].0) && self.contents@[self.entries@[j].0] == self.entries@[j].1 by {
                        if j != i {
                            assert(old_contents.contains_key(old_entries[j].0));
                            assert(old_entries[j].0 != key);
                        }
                    }
                    assert forall|a: [u8; N]| #[trigger] self.contents@.contains_key(a) implies exists|j: int|
                        0 <= j < self.entries@.len() && (#[trigger] self.entries@[j]).0 == a by {
                        if a != key {
                            let j = choose|j: int| 0 <= j < old_entries.len() && (#[trigger] old_entries[j]).0 == a;
                            assert(self.entries@[j].0 == a);
                        } else {
                            assert(self.entries@[i as int].0 == a);
                        }
                    }
                }
                Some(previous)
            },
            None => {
                proof {
                    assert forall|j: int| 0 <= j < old_entries.len() implies (#[trigger] old_entries[j]).0 != key by {
                        assert(old_contents.contains_key(old_entries[j].0));
                    }
                }
                self.entries.push((key, value));
                self.contents = Ghost(new_contents);
                proof {
                    let n = old_entries.len() as int;
                    assert(self.entries@[n] == (key, value));
                    assert forall|j: int| 0 <= j < n implies #[trigger] self.entries@[j] == old_entries[j] by {}
                    assert forall|j: int| 0 <= j < self.entries@.len() implies #[trigger] self.contents@.contains_key(
                        self.entries@[j].0) && self.contents@[self.entries@[j].0] == self.entries@[j].1 by {
                        if j != n {
                            assert(old_contents.contains_key(old_entries[j].0));
                        }
                    }
                    assert forall|a: [u8; N]| #[trigger] self.contents@.contains_key(a) implies exists|j: int|
                        0 <= j < self.entries@.len() && (#[trigger] self.entries@[j]).0 == a by {
                        if a != key {
                            let j = choose|j: int| 0 <= j < n && (#[trigger] old_entries[j]).0 == a;
                            assert(self.entries@[j].0 == a);
                        } else {
                            assert(self.entries@[n].0 == a);
                        }
                    }
                }
                None
            },
        }
    }

    /// The value associated with `key`, if any.
    pub fn get(&self, key: &[u8; N]) -> (r: Option<&T>)
        requires
            self.wf(),
        ensures
            match r {
                Some(v) => self@.contains_key(*key) && *v == self@[*key],
                None => !self@.contains_key(*key),
            },
    {
        match self.position(key) {
            Some(i) => {
                proof {
                    assert(self.contents@.contains_key(self.entries@[i as int].0));
                }
                Some(&self.entries[i].1)
            },
            None => None,
        }
    }

    /// Whether `key` has a value.
    pub fn contains_key(&self, key: &[u8; N]) -> (r: bool)
        requires
            self.wf(),
        ensures
            r == self@.contains_key(*key),
    {
        self.position(key).is_some()
    }
}

} // verus!
