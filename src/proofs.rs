use vstd::prelude::*;

use crate::fingerprint::Fingerprint;

verus! {

/// An account identity. The registry only compares and copies it.
pub type AccountId = u64;

/// A logical time, such as a block height.
pub type BlockNumber = u64;

/// What the registry records for one live fingerprint.
#[derive(Clone, Copy, Debug, PartialEq, Eq, Structural)]
pub struct ClaimRecord {
    pub owner: AccountId,
    pub timestamp: BlockNumber,
}

/// The claim store: each live fingerprint with its record, keyed by exact
/// byte equality.
///
/// `keys[i]` and `records[i]` form one entry; no two keys hold the same bytes.
pub struct Proofs {
    keys: Vec<Fingerprint>,
    records: Vec<ClaimRecord>,
    contents: Ghost<Map<Seq<u8>, ClaimRecord>>,
}

impl View for Proofs {
    type V = Map<Seq<u8>, ClaimRecord>;

    closed spec fn view(&self) -> Map<Seq<u8>, ClaimRecord> {
        self.contents@
    }
}

impl Proofs {
    /// The entries line up with the modelled map, one entry per key.
    pub closed spec fn wf(&self) -> bool {
        &&& self.keys@.len() == self.records@.len()
        &&& forall|i: int, j: int|
            0 <= i < self.keys@.len() && 0 <= j < self.keys@.len() && i != j
                ==> #[trigger] self.keys@[i]@ != #[trigger] self.keys@[j]@
        &&& forall|i: int|
            0 <= i < self.keys@.len() ==> {
                &&& self.contents@.contains_key(#[trigger] self.keys@[i]@)
                &&& self.contents@[self.keys@[i]@] == self.records@[i]
            }
        &&& forall|k: Seq<u8>|
            #[trigger] self.contents@.contains_key(k) ==> exists|i: int|
                0 <= i < self.keys@.len() && #[trigger] self.keys@[i]@ == k
    }

    /// An empty store.
    pub fn new() -> (r: Proofs)
        ensures
            r.wf(),
            r@ == Map::<Seq<u8>, ClaimRecord>::empty(),
    {
        Proofs { keys: Vec::new(), records: Vec::new(), contents: Ghost(Map::empty()) }
    }

    /// Position of the entry for `key`, if it is live.
    fn find(&self, key: &Fingerprint) -> (r: Option<usize>)
        requires
            self.wf(),
        ensures
            r is None <==> !self@.contains_key(key@),
            r matches Some(i) ==> i < self.keys@.len() && self.keys@[i as int]@ == key@,
    {
        let mut i: usize = 0;
        while i < self.keys.len()
            invariant
                self.wf(),
                i <= self.keys@.len(),
                forall|j: int| 0 <= j < i ==> #[trigger] self.keys@[j]@ != key@,
            decreases self.keys@.len() - i,
        {
            if self.keys[i].same_as(key) {
                return Some(i);
            }
            i = i + 1;
        }
        None
    }

    /// Whether `key` has a live record.
    pub fn contains_key(&self, key: &Fingerprint) -> (r: bool)
        requires
            self.wf(),
        ensures
            r == self@.contains_key(key@),
    {
        self.find(key).is_some()
    }

    /// The live record for `key`, if any.
    pub fn get(&self, key: &Fingerprint) -> (r: Option<ClaimRecord>)
        requires
            self.wf(),
        ensures
            r is Some <==> self@.contains_key(key@),
            r matches Some(rec) ==> rec == self@[key@],
    {
        match self.find(key) {
            Some(i) => Some(self.records[i]),
            None => None,
        }
    }

    /// Sets the record for `key`, adding the key or replacing its record.
    pub fn insert(&mut self, key: Fingerprint, rec: ClaimRecord)
        requires
            old(self).wf(),
        ensures
            final(self).wf(),
            final(self)@ == old(self)@.insert(key@, rec),
    {
        match self.find(&key) {
            Some(i) => {
                self.records.set(i, rec);
                self.contents = Ghost(self.contents@.insert(key@, rec));
            },
            None => {
                let ghost k = key@;
                self.keys.push(key);
                self.records.push(rec);
                self.contents = Ghost(self.contents@.insert(k, rec));
                assert forall|m: Seq<u8>| #[trigger] self.contents@.contains_key(m) implies exists|i: int|
                    0 <= i < self.keys@.len() && #[trigger] self.keys@[i]@ == m by {
                    if m == k {
                        assert(self.keys@[self.keys@.len() - 1]@ == m);
                    } else {
                        let i = choose|i: int|
                            0 <= i < old(self).keys@.len() && #[trigger] old(self).keys@[i]@ == m;
                        assert(self.keys@[i]@ == m);
                    }
                }
            },
        }
    }

    /// Removes the record for `key`, if it is live.
    pub fn remove(&mut self, key: &Fingerprint)
        requires
            old(self).wf(),
        ensures
            final(self).wf(),
            final(self)@ == old(self)@.remove(key@),
    {
        match self.find(key) {
            Some(i) => {
                let ghost k = key@;
                self.keys.remove(i);
                self.records.remove(i);
                self.contents = Ghost(self.contents@.remove(k));
                assert forall|m: Seq<u8>| #[trigger] self.contents@.contains_key(m) implies exists|j: int|
                    0 <= j < self.keys@.len() && #[trigger] self.keys@[j]@ == m by {
                    let j = choose|j: int|
                        0 <= j < old(self).keys@.len() && #[trigger] old(self).keys@[j]@ == m;
                    if j < i {
                        assert(self.keys@[j]@ == m);
                    } else {
                        assert(self.keys@[j - 1]@ == m);
                    }
                }
            },
            None => {
                assert(self.contents@.remove(key@) =~= self.contents@);
            },
        }
    }
}

} // verus!
