//! The dedup ledger: the process-lifetime set of dedup keys of releases whose
//! downstream round-trip already completed.
//!
//! Keys are recorded once and never removed.  The ledger is viewed as the
//! mathematical set of the recorded keys' character sequences.

use vstd::prelude::*;

use crate::strutil::str_eq;

verus! {

/// An in-process set of dedup keys, guarding at-most-once downstream
/// notification per release.
pub struct DedupLedger {
    keys: Vec<String>,
}

impl View for DedupLedger {
    type V = Set<Seq<char>>;

    closed spec fn view(&self) -> Set<Seq<char>> {
        Set::new(|s: Seq<char>| exists|i: int| 0 <= i < self.keys@.len() && self.keys@[i]@ == s)
    }
}

impl DedupLedger {
    /// An empty ledger.
    pub fn new() -> (r: DedupLedger)
        ensures
            r@ == Set::<Seq<char>>::empty(),
    {
        let r = DedupLedger { keys: Vec::new() };
        proof {
            assert(r@ =~= Set::<Seq<char>>::empty());
        }
        r
    }

    /// Membership check; read-only.
    pub fn contains(&self, key: &str) -> (r: bool)
        ensures
            r == self@.contains(key@),
    {
        let n = self.keys.len();
        let mut i: usize = 0;
        while i < n
            invariant
                n == self.keys@.len(),
                i <= n,
                forall|j: int| 0 <= j < i ==> self.keys@[j]@ != key@,
            decreases n - i,
        {
            if str_eq(self.keys[i].as_str(), key) {
                proof {
                    assert(self.keys@[i as int]@ == key@);
                }
                return true;
            }
            i = i + 1;
        }
        false
    }

    /// Records `key`; recording an already-present key leaves the ledger
    /// unchanged.
    pub fn insert(&mut self, key: String)
        ensures
            final(self)@ == old(self)@.insert(key@),
    {
        if self.contains(key.as_str()) {
            proof {
                assert(self@ =~= old(self)@.insert(key@));
            }
        } else {
            let ghost old_keys = self.keys@;
            self.keys.push(key);
            proof {
                assert forall|s: Seq<char>| self@.contains(s) implies old(
                    self,
                )@.insert(key@).contains(s) by {
                    let i = choose|i: int|
                        0 <= i < self.keys@.len() && self.keys@[i]@ == s;
                    if i < old_keys.len() {
                        assert(old_keys[i]@ == s);
                    } else {
                        assert(s == key@);
                    }
                }
                assert forall|s: Seq<char>| old(self)@.insert(key@).contains(s) implies self@.contains(
                    s,
                ) by {
                    if old(self)@.contains(s) {
                        let i = choose|i: int| 0 <= i < old_keys.len() && old_keys[i]@ == s;
                        assert(self.keys@[i]@ == s);
                    } else {
                        assert(self.keys@[old_keys.len() as int]@ == key@);
                    }
                }
                assert(self@ =~= old(self)@.insert(key@));
            }
        }
    }
}

} // verus!
