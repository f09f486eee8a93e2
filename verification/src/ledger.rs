//! The ledger: per-account balances, with checked debit and credit.
//!
//! Balances live in an association list with unique keys, viewed in
//! specifications as a map from account bytes to balances; an account that is
//! absent holds zero. A transfer either updates both sides or neither, and
//! the sum of all balances never changes.

use vstd::prelude::*;
use crate::account::{bytes32_eq, AccountId, Balance};

verus! {

/// One balance entry: an account and what it holds.
pub type Entry = (AccountId, Balance);

/// No two entries name the same account.
pub open spec fn keys_unique(s: Seq<Entry>) -> bool {
    forall|i: int, j: int| 0 <= i < j < s.len() ==> s[i].0@ != s[j].0@
}

/// The map a sequence of entries denotes.
pub open spec fn entries_map(s: Seq<Entry>) -> Map<Seq<u8>, Balance>
    decreases s.len(),
{
    if s.len() == 0 {
        Map::empty()
    } else {
        entries_map(s.drop_last()).insert(s.last().0@, s.last().1)
    }
}

/// The sum of all balances in the entries.
pub open spec fn entries_sum(s: Seq<Entry>) -> int
    decreases s.len(),
{
    if s.len() == 0 {
        0
    } else {
        entries_sum(s.drop_last()) + s.last().1
    }
}

/// The balance an account holds under map `m`: its entry, or zero if absent.
pub open spec fn bal(m: Map<Seq<u8>, Balance>, a: Seq<u8>) -> Balance {
    if m.dom().contains(a) {
        m[a]
    } else {
        0
    }
}

/// The map after a transfer: debit `from`, then credit `to`.
pub open spec fn transferred(
    m: Map<Seq<u8>, Balance>,
    from: Seq<u8>,
    to: Seq<u8>,
    v: Balance,
) -> Map<Seq<u8>, Balance> {
    let debited = m.insert(from, (bal(m, from) - v) as Balance);
    debited.insert(to, (bal(debited, to) + v) as Balance)
}

/// Whether a transfer of `v` from `from` to `to` can go through: the debit
/// is covered and the credit does not overflow 128 bits.
pub open spec fn transfer_admissible(
    m: Map<Seq<u8>, Balance>,
    from: Seq<u8>,
    to: Seq<u8>,
    v: Balance,
) -> bool {
    &&& bal(m, from) >= v
    &&& (from == to || bal(m, to) + v <= Balance::MAX)
}

proof fn lemma_entries_map_index(s: Seq<Entry>, i: int)
    requires
        keys_unique(s),
        0 <= i < s.len(),
    ensures
        entries_map(s).dom().contains(s[i].0@),
        entries_map(s)[s[i].0@] == s[i].1,
    decreases s.len(),
{
    if i < s.len() - 1 {
        lemma_entries_map_index(s.drop_last(), i);
    }
}

proof fn lemma_entries_map_absent(s: Seq<Entry>, a: Seq<u8>)
    requires
        forall|i: int| 0 <= i < s.len() ==> s[i].0@ != a,
    ensures
        !entries_map(s).dom().contains(a),
    decreases s.len(),
{
    if s.len() > 0 {
        lemma_entries_map_absent(s.drop_last(), a);
    }
}

proof fn lemma_entries_map_dom(s: Seq<Entry>, a: Seq<u8>)
    requires
        entries_map(s).dom().contains(a),
    ensures
        exists|i: int| 0 <= i < s.len() && s[i].0@ == a,
    decreases s.len(),
{
    if s.len() > 0 {
        if s.last().0@ == a {
            assert(s[s.len() - 1].0@ == a);
        } else {
            lemma_entries_map_dom(s.drop_last(), a);
        }
    }
}

proof fn lemma_entries_map_update(s: Seq<Entry>, i: int, v: Balance)
    requires
        keys_unique(s),
        0 <= i < s.len(),
    ensures
        entries_map(s.update(i, (s[i].0, v))) == entries_map(s).insert(s[i].0@, v),
    decreases s.len(),
{
    let t = s.update(i, (s[i].0, v));
    if i == s.len() - 1 {
        assert(t.drop_last() =~= s.drop_last());
        assert(entries_map(t) =~= entries_map(s).insert(s[i].0@, v));
    } else {
        lemma_entries_map_update(s.drop_last(), i, v);
        assert(t.drop_last() =~= s.drop_last().update(i, (s[i].0, v)));
        assert(s.last().0@ != s[i].0@);
        assert(entries_map(t) =~= entries_map(s).insert(s[i].0@, v));
    }
}

proof fn lemma_entries_sum_update(s: Seq<Entry>, i: int, v: Balance)
    requires
        0 <= i < s.len(),
    ensures
        entries_sum(s.update(i, (s[i].0, v))) == entries_sum(s) - s[i].1 + v,
    decreases s.len(),
{
    let t = s.update(i, (s[i].0, v));
    if i == s.len() - 1 {
        assert(t.drop_last() =~= s.drop_last());
    } else {
        lemma_entries_sum_update(s.drop_last(), i, v);
        assert(t.drop_last() =~= s.drop_last().update(i, (s[i].0, v)));
        assert(t.last() == s.last());
    }
}

proof fn lemma_entries_sum_nonneg(s: Seq<Entry>)
    ensures
        entries_sum(s) >= 0,
    decreases s.len(),
{
    if s.len() > 0 {
        lemma_entries_sum_nonneg(s.drop_last());
    }
}

proof fn lemma_entries_sum_elem(s: Seq<Entry>, i: int)
    requires
        0 <= i < s.len(),
    ensures
        entries_sum(s) >= s[i].1,
    decreases s.len(),
{
    lemma_entries_sum_nonneg(s.drop_last());
    if i < s.len() - 1 {
        lemma_entries_sum_elem(s.drop_last(), i);
    }
}

proof fn lemma_entries_sum_pair(s: Seq<Entry>, i: int, j: int)
    requires
        0 <= i < j < s.len(),
    ensures
        entries_sum(s) >= s[i].1 + s[j].1,
    decreases s.len(),
{
    if j == s.len() - 1 {
        lemma_entries_sum_elem(s.drop_last(), i);
    } else {
        lemma_entries_sum_pair(s.drop_last(), i, j);
    }
}

/// Errors a ledger transfer can raise.
#[derive(Clone, Copy, Debug, PartialEq, Eq)]
pub enum LedgerError {
    /// The debited account does not cover the value.
    InsufficientBalance,
    /// The credit would exceed the 128-bit balance ceiling.
    Overflow,
}

/// The balance store. It is the only mutator of balance state.
pub struct Ledger {
    entries: Vec<Entry>,
}

impl View for Ledger {
    type V = Map<Seq<u8>, Balance>;

    closed spec fn view(&self) -> Map<Seq<u8>, Balance> {
        entries_map(self.entries@)
    }
}

impl Ledger {
    /// Well-formed: no account appears twice.
    pub closed spec fn wf(&self) -> bool {
        keys_unique(self.entries@)
    }

    /// The sum of all stored balances.
    pub closed spec fn total(&self) -> int {
        entries_sum(self.entries@)
    }

    /// An empty ledger: every account holds zero.
    pub fn new() -> (r: Ledger)
        ensures
            r.wf(),
            r@ == Map::<Seq<u8>, Balance>::empty(),
            r.total() == 0,
    {
        Ledger { entries: Vec::new() }
    }

    /// The total of any two distinct accounts is covered by the ledger total.
    pub proof fn lemma_pair_bounded(&self, a: Seq<u8>, b: Seq<u8>)
        requires
            self.wf(),
            a != b,
        ensures
            bal(self@, a) + bal(self@, b) <= self.total(),
    {
        let s = self.entries@;
        lemma_entries_sum_nonneg(s);
        if self@.dom().contains(a) && self@.dom().contains(b) {
            lemma_entries_map_dom(s, a);
            lemma_entries_map_dom(s, b);
            let i = choose|i: int| 0 <= i < s.len() && s[i].0@ == a;
            let j = choose|j: int| 0 <= j < s.len() && s[j].0@ == b;
            lemma_entries_map_index(s, i);
            lemma_entries_map_index(s, j);
            if i < j {
                lemma_entries_sum_pair(s, i, j);
            } else {
                lemma_entries_sum_pair(s, j, i);
            }
        } else if self@.dom().contains(a) {
            lemma_entries_map_dom(s, a);
            let i = choose|i: int| 0 <= i < s.len() && s[i].0@ == a;
            lemma_entries_map_index(s, i);
            lemma_entries_sum_elem(s, i);
        } else if self@.dom().contains(b) {
            lemma_entries_map_dom(s, b);
            let j = choose|j: int| 0 <= j < s.len() && s[j].0@ == b;
            lemma_entries_map_index(s, j);
            lemma_entries_sum_elem(s, j);
        }
    }

    fn find(&self, a: &AccountId) -> (r: Option<usize>)
        ensures
            match r {
                Some(i) => i < self.entries@.len() && self.entries@[i as int].0@ == a@,
                None => forall|j: int| 0 <= j < self.entries@.len() ==> self.entries@[j].0@ != a@,
            },
    {
        let mut i: usize = 0;
        while i < self.entries.len()
            invariant
                i <= self.entries@.len(),
                forall|j: int| 0 <= j < i ==> self.entries@[j].0@ != a@,
            decreases self.entries@.len() - i,
        {
            if bytes32_eq(&self.entries[i].0, a) {
                return Some(i);
            }
            i += 1;
        }
        None
    }

    /// The stored balance of an account, or zero if it has none.
    pub fn balance_of(&self, a: &AccountId) -> (r: Balance)
        requires
            self.wf(),
        ensures
            r == bal(self@, a@),
    {
        match self.find(a) {
            Some(i) => {
                proof {
                    lemma_entries_map_index(self.entries@, i as int);
                }
                self.entries[i].1
            },
            None => {
                proof {
                    lemma_entries_map_absent(self.entries@, a@);
                }
                0
            },
        }
    }

    /// Stores `v` as the balance of `a`, keeping every other account as it was.
    pub fn set_balance(&mut self, a: &AccountId, v: Balance)
        requires
            old(self).wf(),
        ensures
            final(self).wf(),
            final(self)@ == old(self)@.insert(a@, v),
            final(self).total() == old(self).total() - bal(old(self)@, a@) + v,
    {
        let ghost s = self.entries@;
        match self.find(a) {
            Some(i) => {
                proof {
                    lemma_entries_map_index(s, i as int);
                    lemma_entries_map_update(s, i as int, v);
                    lemma_entries_sum_update(s, i as int, v);
                }
                let key = self.entries[i].0;
                let _ = self.entries.remove(i);
                self.entries.insert(i, (key, v));
                proof {
                    assert(self.entries@ =~= s.update(i as int, (s[i as int].0, v)));
                }
            },
            None => {
                proof {
                    lemma_entries_map_absent(s, a@);
                }
                self.entries.push((*a, v));
                proof {
                    assert(self.entries@.drop_last() =~= s);
                }
            },
        }
    }

    /// Moves `v` from `from` to `to`: both balances update, or neither.
    ///
    /// Fails with `InsufficientBalance` when `from` does not cover `v`, and
    /// with `Overflow` when the credit would exceed the 128-bit ceiling; on
    /// either failure the ledger is untouched. The sum of all balances is
    /// unchanged in every case.
    pub fn transfer(&mut self, from: &AccountId, to: &AccountId, v: Balance) -> (r: Result<
        (),
        LedgerError,
    >)
        requires
            old(self).wf(),
        ensures
            final(self).wf(),
            final(self).total() == old(self).total(),
            transfer_admissible(old(self)@, from@, to@, v) ==> r == Ok::<(), LedgerError>(())
                && final(self)@ == transferred(old(self)@, from@, to@, v),
            bal(old(self)@, from@) < v ==> r == Err::<(), LedgerError>(
                LedgerError::InsufficientBalance,
            ),
            bal(old(self)@, from@) >= v && !transfer_admissible(old(self)@, from@, to@, v) ==> r
                == Err::<(), LedgerError>(LedgerError::Overflow),
            !transfer_admissible(old(self)@, from@, to@, v) ==> final(self)@ == old(self)@
                && (r == Err::<(), LedgerError>(LedgerError::InsufficientBalance) || r == Err::<
                (),
                LedgerError,
            >(LedgerError::Overflow)),
    {
        let from_balance = self.balance_of(from);
        if from_balance < v {
            return Err(LedgerError::InsufficientBalance);
        }
        if bytes32_eq(from, to) {
            // Debit and credit meet on one account: write its balance back.
            self.set_balance(from, from_balance);
            proof {
                assert(self@ =~= transferred(old(self)@, from@, to@, v));
            }
            Ok(())
        } else {
            let to_balance = self.balance_of(to);
            match to_balance.checked_add(v) {
                Some(new_to) => {
                    self.set_balance(from, from_balance - v);
                    self.set_balance(to, new_to);
                    proof {
                        assert(self@ =~= transferred(old(self)@, from@, to@, v));
                    }
                    Ok(())
                },
                None => Err(LedgerError::Overflow),
            }
        }
    }
}

} // verus!
