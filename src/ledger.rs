use crate::identity::Identity;
use vstd::prelude::*;

verus! {

/// One depositor's record: what they have deposited and not yet withdrawn.
pub struct Entry {
    pub owner: Identity,
    pub amount: i128,
}

/// The amounts deposited, by depositor; an absent depositor stands at zero.
pub struct Ledger {
    entries: Vec<Entry>,
}

/// Whether entry `i` belongs to `who`.
pub open spec fn owns(s: Seq<Entry>, i: int, who: Seq<u8>) -> bool {
    0 <= i < s.len() && s[i].owner@ == who
}

/// What `who` stands at in the entries `s`.
pub open spec fn amount_in(s: Seq<Entry>, who: Seq<u8>) -> int {
    if exists|i: int| owns(s, i, who) {
        s[choose|i: int| owns(s, i, who)].amount as int
    } else {
        0
    }
}

impl View for Ledger {
    type V = Map<Seq<u8>, int>;

    /// Every account, with what it stands at.
    closed spec fn view(&self) -> Map<Seq<u8>, int> {
        Map::new(|who: Seq<u8>| true, |who: Seq<u8>| amount_in(self.entries@, who))
    }
}

impl Ledger {
    /// Each depositor has at most one entry, and no entry is negative.
    pub closed spec fn wf(&self) -> bool {
        &&& forall|i: int, j: int|
            0 <= i < j < self.entries@.len() ==> self.entries@[i].owner@
                != self.entries@[j].owner@
        &&& forall|i: int| 0 <= i < self.entries@.len() ==> self.entries@[i].amount >= 0
    }

    proof fn lemma_found(&self, i: int)
        requires
            self.wf(),
            0 <= i < self.entries@.len(),
        ensures
            self@[self.entries@[i].owner@] == self.entries@[i].amount,
    {
        let s = self.entries@;
        let who = s[i].owner@;
        assert(owns(s, i, who));
        let j = choose|j: int| owns(s, j, who);
        assert(j == i) by {
            if j < i {
                assert(s[j].owner@ != s[i].owner@);
            } else if i < j {
                assert(s[i].owner@ != s[j].owner@);
            }
        }
    }

    pub fn new() -> (r: Ledger)
        ensures
            r.wf(),
            r@ == Map::new(|who: Seq<u8>| true, |who: Seq<u8>| 0int),
    {
        let r = Ledger { entries: Vec::new() };
        assert(r@ =~= Map::new(|who: Seq<u8>| true, |who: Seq<u8>| 0int));
        r
    }

    /// Where `who`'s entry stands, if it has one.
    fn find(&self, who: &Identity) -> (r: Option<usize>)
        requires
            self.wf(),
        ensures
            r matches Some(i) ==> owns(self.entries@, i as int, who@),
            r is None ==> forall|i: int| !owns(self.entries@, i, who@),
    {
        let n = self.entries.len();
        let mut i: usize = 0;
        while i < n
            invariant
                n == self.entries@.len(),
                0 <= i <= n,
                forall|j: int| 0 <= j < i ==> !owns(self.entries@, j, who@),
            decreases n - i,
        {
            if self.entries[i].owner.same(who) {
                return Some(i);
            }
            i = i + 1;
        }
        None
    }

    /// What `who` stands at, zero if they never deposited.
    pub fn get(&self, who: &Identity) -> (r: i128)
        requires
            self.wf(),
        ensures
            r == self@[who@],
            r >= 0,
    {
        match self.find(who) {
            Some(i) => {
                proof {
                    self.lemma_found(i as int);
                }
                self.entries[i].amount
            },
            None => 0,
        }
    }

    /// Overwrites `who`'s entry with `amount`.
    pub fn set(&mut self, who: Identity, amount: i128)
        requires
            old(self).wf(),
            amount >= 0,
        ensures
            final(self).wf(),
            final(self)@ == old(self)@.insert(who@, amount as int),
    {
        let ghost prev = *self;
        let ghost w = who@;
        let ghost at: int;
        match self.find(&who) {
            Some(i) => {
                self.entries.set(i, Entry { owner: who, amount });
                proof {
                    at = i as int;
                    assert forall|j: int| 0 <= j < self.entries@.len() && j != at implies self.entries@[j].owner@ != w by {
                        if j < at {
                            assert(prev.entries@[j].owner@ != prev.entries@[at].owner@);
                        } else {
                            assert(prev.entries@[at].owner@ != prev.entries@[j].owner@);
                        }
                    }
                }
            },
            None => {
                self.entries.push(Entry { owner: who, amount });
                proof {
                    at = self.entries@.len() - 1;
                    assert forall|j: int| 0 <= j < self.entries@.len() && j != at implies self.entries@[j].owner@ != w by {
                        assert(!owns(prev.entries@, j, w));
                    }
                }
            },
        }
        proof {
            let before = prev.entries@;
            let after = self.entries@;
            assert(forall|j: int| 0 <= j < after.len() && j != at ==> after[j] == before[j]);
            self.lemma_found(at);
            assert forall|k: Seq<u8>| k != w implies self@[k] == prev@[k] by {
                if exists|j: int| owns(before, j, k) {
                    let j = choose|j: int| owns(before, j, k);
                    prev.lemma_found(j);
                    self.lemma_found(j);
                } else {
                    assert forall|j: int| !owns(after, j, k) by {
                        if owns(after, j, k) {
                            assert(owns(before, j, k));
                        }
                    }
                }
            }
            assert(self@ =~= prev@.insert(w, amount as int));
        }
    }
}

} // verus!
