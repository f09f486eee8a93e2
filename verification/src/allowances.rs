//! Allowances: what a spender may move on an owner's behalf.
//!
//! Out of the authorization core, but it shares the ledger's debit shape: an
//! association list with unique (owner, spender) keys, viewed as a map from
//! the pair of account byte strings to the approved amount.

use vstd::prelude::*;
use crate::account::{bytes32_eq, AccountId, Balance};

verus! {

/// One allowance entry: owner, spender, and the approved amount.
pub type AllowanceEntry = (AccountId, AccountId, Balance);

/// No two entries name the same (owner, spender) pair.
pub open spec fn pairs_unique(s: Seq<AllowanceEntry>) -> bool {
    forall|i: int, j: int|
        0 <= i < j < s.len() ==> (s[i].0@, s[i].1@) != (s[j].0@, s[j].1@)
}

/// The map a sequence of allowance entries denotes.
pub open spec fn allowance_map(s: Seq<AllowanceEntry>) -> Map<(Seq<u8>, Seq<u8>), Balance>
    decreases s.len(),
{
    if s.len() == 0 {
        Map::empty()
    } else {
        allowance_map(s.drop_last()).insert((s.last().0@, s.last().1@), s.last().2)
    }
}

/// The approved amount for a pair under map `m`, or zero if absent.
pub open spec fn allowance_of(m: Map<(Seq<u8>, Seq<u8>), Balance>, owner: Seq<u8>, spender: Seq<
    u8,
>) -> Balance {
    if m.dom().contains((owner, spender)) {
        m[(owner, spender)]
    } else {
        0
    }
}

proof fn lemma_allowance_map_index(s: Seq<AllowanceEntry>, i: int)
    requires
        pairs_unique(s),
        0 <= i < s.len(),
    ensures
        allowance_map(s).dom().contains((s[i].0@, s[i].1@)),
        allowance_map(s)[(s[i].0@, s[i].1@)] == s[i].2,
    decreases s.len(),
{
    if i < s.len() - 1 {
        lemma_allowance_map_index(s.drop_last(), i);
    }
}

proof fn lemma_allowance_map_absent(s: Seq<AllowanceEntry>, k: (Seq<u8>, Seq<u8>))
    requires
        forall|i: int| 0 <= i < s.len() ==> (s[i].0@, s[i].1@) != k,
    ensures
        !allowance_map(s).dom().contains(k),
    decreases s.len(),
{
    if s.len() > 0 {
        lemma_allowance_map_absent(s.drop_last(), k);
    }
}

proof fn lemma_allowance_map_update(s: Seq<AllowanceEntry>, i: int, v: Balance)
    requires
        pairs_unique(s),
        0 <= i < s.len(),
    ensures
        allowance_map(s.update(i, (s[i].0, s[i].1, v))) == allowance_map(s).insert(
            (s[i].0@, s[i].1@),
            v,
        ),
    decreases s.len(),
{
    let t = s.update(i, (s[i].0, s[i].1, v));
    if i == s.len() - 1 {
        assert(t.drop_last() =~= s.drop_last());
        assert(allowance_map(t) =~= allowance_map(s).insert((s[i].0@, s[i].1@), v));
    } else {
        lemma_allowance_map_update(s.drop_last(), i, v);
        assert(t.drop_last() =~= s.drop_last().update(i, (s[i].0, s[i].1, v)));
        assert((s.last().0@, s.last().1@) != (s[i].0@, s[i].1@));
        assert(allowance_map(t) =~= allowance_map(s).insert((s[i].0@, s[i].1@), v));
    }
}

/// The allowance store.
pub struct AllowanceTable {
    entries: Vec<AllowanceEntry>,
}

impl View for AllowanceTable {
    type V = Map<(Seq<u8>, Seq<u8>), Balance>;

    closed spec fn view(&self) -> Map<(Seq<u8>, Seq<u8>), Balance> {
        allowance_map(self.entries@)
    }
}

impl AllowanceTable {
    /// Well-formed: no pair appears twice.
    pub closed spec fn wf(&self) -> bool {
        pairs_unique(self.entries@)
    }

    /// An empty table: every pair is approved for zero.
    pub fn new() -> (r: AllowanceTable)
        ensures
            r.wf(),
            r@ == Map::<(Seq<u8>, Seq<u8>), Balance>::empty(),
    {
        AllowanceTable { entries: Vec::new() }
    }

    fn find(&self, owner: &AccountId, spender: &AccountId) -> (r: Option<usize>)
        ensures
            match r {
                Some(i) => i < self.entries@.len() && self.entries@[i as int].0@ == owner@
                    && self.entries@[i as int].1@ == spender@,
                None => forall|j: int|
                    0 <= j < self.entries@.len() ==> (self.entries@[j].0@, self.entries@[j].1@) != (
                    owner@,
                    spender@,
                    ),
            },
    {
        let mut i: usize = 0;
        while i < self.entries.len()
            invariant
                i <= self.entries@.len(),
                forall|j: int|
                    0 <= j < i ==> (self.entries@[j].0@, self.entries@[j].1@) != (
                    owner@,
                    spender@,
                    ),
            decreases self.entries@.len() - i,
        {
            if bytes32_eq(&self.entries[i].0, owner) && bytes32_eq(&self.entries[i].1, spender) {
                return Some(i);
            }
            i += 1;
        }
        None
    }

    /// The approved amount for (owner, spender), or zero if none was set.
    pub fn get(&self, owner: &AccountId, spender: &AccountId) -> (r: Balance)
        requires
            self.wf(),
        ensures
            r == allowance_of(self@, owner@, spender@),
    {
        match self.find(owner, spender) {
            Some(i) => {
                proof {
                    lemma_allowance_map_index(self.entries@, i as int);
                }
                self.entries[i].2
            },
            None => {
                proof {
                    lemma_allowance_map_absent(self.entries@, (owner@, spender@));
                }
                0
            },
        }
    }

    /// Sets the approved amount for (owner, spender), keeping every other
    /// pair as it was.
    pub fn set(&mut self, owner: &AccountId, spender: &AccountId, v: Balance)
        requires
            old(self).wf(),
        ensures
            final(self).wf(),
            final(self)@ == old(self)@.insert((owner@, spender@), v),
    {
        let ghost s = self.entries@;
        match self.find(owner, spender) {
            Some(i) => {
                proof {
                    lemma_allowance_map_update(s, i as int, v);
                }
                let o = self.entries[i].0;
                let sp = self.entries[i].1;
                let _ = self.entries.remove(i);
                self.entries.insert(i, (o, sp, v));
                proof {
                    assert(self.entries@ =~= s.update(i as int, (s[i as int].0, s[i as int].1, v)));
                }
            },
            None => {
                proof {
                    lemma_allowance_map_absent(s, (owner@, spender@));
                }
                self.entries.push((*owner, *spender, v));
                proof {
                    assert(self.entries@.drop_last() =~= s);
                }
            },
        }
    }
}

} // verus!
