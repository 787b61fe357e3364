use vstd::prelude::*;

use crate::types::ClaimRecord;

verus! {

/// Whether two byte strings are equal.
pub fn bytes_eq(a: &Vec<u8>, b: &Vec<u8>) -> (r: bool)
    ensures
        r == (a@ == b@),
{
    if a.len() != b.len() {
        return false;
    }
    let mut i: usize = 0;
    while i < a.len()
        invariant
            a@.len() == b@.len(),
            i <= a@.len(),
            forall|j: int| 0 <= j < i ==> a@[j] == b@[j],
        decreases a@.len() - i,
    {
        if a[i] != b[i] {
            return false;
        }
        i = i + 1;
    }
    assert(a@ =~= b@);
    true
}

/// A mapping from fingerprint to claim record, with unique keys.
///
/// Its meaning is the map `self@`; the entries are kept in no particular
/// order.
pub struct ClaimStore {
    entries: Vec<(Vec<u8>, ClaimRecord)>,
    contents: Ghost<Map<Seq<u8>, ClaimRecord>>,
}

impl View for ClaimStore {
    type V = Map<Seq<u8>, ClaimRecord>;

    closed spec fn view(&self) -> Map<Seq<u8>, ClaimRecord> {
        self.contents@
    }
}

impl ClaimStore {
    /// The entries hold each key once, and hold exactly the keys and
    /// records of the map.
    pub closed spec fn wf(&self) -> bool {
        let e = self.entries@;
        let m = self.contents@;
        &&& forall|i: int, j: int|
            0 <= i < e.len() && 0 <= j < e.len() && i != j ==> #[trigger] e[i].0@ != #[trigger] e[j].0@
        &&& forall|i: int| 0 <= i < e.len() ==> m.contains_key(#[trigger] e[i].0@) && m[e[i].0@] == e[i].1
        &&& forall|k: Seq<u8>| #[trigger] m.contains_key(k) ==> exists|i: int| 0 <= i < e.len() && #[trigger] e[i].0@ == k
    }

    /// An empty store.
    pub fn new() -> (r: Self)
        ensures
            r.wf(),
            r@ == Map::<Seq<u8>, ClaimRecord>::empty(),
    {
        ClaimStore { entries: Vec::new(), contents: Ghost(Map::empty()) }
    }

    /// The position of `key` among the entries, if it is there.
    fn find(&self, key: &Vec<u8>) -> (r: Option<usize>)
        requires
            self.wf(),
        ensures
            match r {
                Some(i) => i < self.entries@.len() && self.entries@[i as int].0@ == key@,
                None => !self@.contains_key(key@),
            },
    {
        let mut i: usize = 0;
        while i < self.entries.len()
            invariant
                self.wf(),
                i <= self.entries@.len(),
                forall|j: int| 0 <= j < i ==> #[trigger] self.entries@[j].0@ != key@,
            decreases self.entries@.len() - i,
        {
            if bytes_eq(&self.entries[i].0, key) {
                return Some(i);
            }
            i = i + 1;
        }
        None
    }

    /// The record stored under `key`, if any.
    pub fn get(&self, key: &Vec<u8>) -> (r: Option<ClaimRecord>)
        requires
            self.wf(),
        ensures
            r == self@.get(key@),
    {
        match self.find(key) {
            Some(i) => Some(self.entries[i].1),
            None => None,
        }
    }

    /// Whether a record is stored under `key`.
    pub fn contains(&self, key: &Vec<u8>) -> (r: bool)
        requires
            self.wf(),
        ensures
            r == self@.contains_key(key@),
    {
        self.find(key).is_some()
    }

    /// Stores `record` under `key`, replacing any record already there.
    pub fn insert(&mut self, key: Vec<u8>, record: ClaimRecord)
        requires
            old(self).wf(),
        ensures
            final(self).wf(),
            final(self)@ == old(self)@.insert(key@, record),
    {
        let ghost k = key@;
        let ghost m = self.contents@.insert(k, record);
        let ghost mut at: int = 0;
        match self.find(&key) {
            Some(i) => {
                self.entries[i] = (key, record);
                proof { at = i as int; }
            },
            None => {
                self.entries.push((key, record));
                proof { at = self.entries@.len() - 1; }
            },
        }
        self.contents = Ghost(m);
        assert(self.entries@[at].0@ == k);
        assert forall|q: Seq<u8>| #[trigger] m.contains_key(q) implies exists|i: int|
            0 <= i < self.entries@.len() && #[trigger] self.entries@[i].0@ == q by {
            if q != k {
                let i = choose|i: int| 0 <= i < old(self).entries@.len() && #[trigger] old(self).entries@[i].0@ == q;
                assert(self.entries@[i].0@ == q);
            }
        }
    }

    /// Removes the record stored under `key`, if any.
    pub fn remove(&mut self, key: &Vec<u8>)
        requires
            old(self).wf(),
        ensures
            final(self).wf(),
            final(self)@ == old(self)@.remove(key@),
    {
        let ghost m = self.contents@.remove(key@);
        match self.find(key) {
            Some(i) => {
                let ghost e = self.entries@;
                self.entries.remove(i);
                self.contents = Ghost(m);
                assert forall|q: Seq<u8>| #[trigger] m.contains_key(q) implies exists|j: int|
                    0 <= j < self.entries@.len() && #[trigger] self.entries@[j].0@ == q by {
                    let j = choose|j: int| 0 <= j < e.len() && #[trigger] e[j].0@ == q;
                    if j < i {
                        assert(self.entries@[j].0@ == q);
                    } else {
                        assert(self.entries@[j - 1].0@ == q);
                    }
                }
            },
            None => {
                assert(m =~= self.contents@);
            },
        }
    }
}

} // verus!
