//! A model of the asset-transfer collaborator: a book of fungible-asset
//! balances, keyed by asset and owner, with an atomic `transfer`.
//!
//! The escrow controller never inspects the book's representation; it only
//! relies on the contracts of [`TokenLedger::transfer`] and
//! [`TokenLedger::balance`], stated over [`TokenLedger::spec_balance`].

use vstd::prelude::*;

use crate::types::Address;

verus! {

/// One balance: `owner` holds `amount` units of `token`.
#[derive(Clone, Copy, Debug)]
struct BalanceEntry {
    token: Address,
    owner: Address,
    amount: i128,
}

/// The error the ledger reports when a transfer cannot be completed:
/// a negative amount, an insufficient balance, or a receiving balance
/// that would no longer be representable.
#[derive(Clone, Copy, PartialEq, Eq, Structural, Debug)]
pub struct TransferError;

/// Balances of every fungible asset, one entry per `(token, owner)` pair.
#[derive(Clone, Debug)]
pub struct TokenLedger {
    entries: Vec<BalanceEntry>,
}

spec fn entry_matches(e: BalanceEntry, token: Address, owner: Address) -> bool {
    e.token == token && e.owner == owner
}

/// The balance recorded for `(token, owner)` in `s`: the amount of the
/// last matching entry, or zero when none matches.
spec fn bal_of(s: Seq<BalanceEntry>, token: Address, owner: Address) -> int
    decreases s.len(),
{
    if s.len() == 0 {
        0
    } else if entry_matches(s.last(), token, owner) {
        s.last().amount as int
    } else {
        bal_of(s.drop_last(), token, owner)
    }
}

spec fn distinct_keys(s: Seq<BalanceEntry>) -> bool {
    forall|i: int, j: int|
        0 <= i < j < s.len() ==> !(s[i].token == s[j].token && s[i].owner == s[j].owner)
}

spec fn entries_nonnegative(s: Seq<BalanceEntry>) -> bool {
    forall|i: int| 0 <= i < s.len() ==> s[i].amount >= 0
}

proof fn lemma_bal_absent(s: Seq<BalanceEntry>, token: Address, owner: Address)
    requires
        forall|i: int| 0 <= i < s.len() ==> !entry_matches(s[i], token, owner),
    ensures
        bal_of(s, token, owner) == 0,
    decreases s.len(),
{
    if s.len() > 0 {
        assert(!entry_matches(s[s.len() - 1], token, owner));
        assert forall|i: int| 0 <= i < s.drop_last().len() implies !entry_matches(
            s.drop_last()[i],
            token,
            owner,
        ) by {
            assert(s.drop_last()[i] == s[i]);
        }
        lemma_bal_absent(s.drop_last(), token, owner);
    }
}

proof fn lemma_bal_found(s: Seq<BalanceEntry>, k: int, token: Address, owner: Address)
    requires
        distinct_keys(s),
        0 <= k < s.len(),
        entry_matches(s[k], token, owner),
    ensures
        bal_of(s, token, owner) == s[k].amount as int,
    decreases s.len(),
{
    if k == s.len() - 1 {
        assert(s.last() == s[k]);
    } else {
        assert(!(s[k].token == s[s.len() - 1].token && s[k].owner == s[s.len() - 1].owner));
        let t = s.drop_last();
        assert forall|i: int, j: int|
            0 <= i < j < t.len() implies !(t[i].token == t[j].token
            && t[i].owner == t[j].owner) by {
            assert(t[i] == s[i]);
            assert(t[j] == s[j]);
        }
        assert(t[k] == s[k]);
        lemma_bal_found(t, k, token, owner);
    }
}

proof fn lemma_bal_push(s: Seq<BalanceEntry>, e: BalanceEntry, token: Address, owner: Address)
    ensures
        bal_of(s.push(e), token, owner) == if entry_matches(e, token, owner) {
            e.amount as int
        } else {
            bal_of(s, token, owner)
        },
{
    assert(s.push(e).last() == e);
    assert(s.push(e).drop_last() =~= s);
}

proof fn lemma_bal_update(
    s: Seq<BalanceEntry>,
    k: int,
    e: BalanceEntry,
    token: Address,
    owner: Address,
)
    requires
        distinct_keys(s),
        0 <= k < s.len(),
        e.token == s[k].token,
        e.owner == s[k].owner,
    ensures
        bal_of(s.update(k, e), token, owner) == if entry_matches(e, token, owner) {
            e.amount as int
        } else {
            bal_of(s, token, owner)
        },
    decreases s.len(),
{
    let u = s.update(k, e);
    let n = s.len() - 1;
    if k == n {
        assert(u.last() == e);
        assert(u.drop_last() =~= s.drop_last());
        if !entry_matches(e, token, owner) {
            // the replaced entry has the same key, so it did not match either
            assert(!entry_matches(s.last(), token, owner));
        }
    } else {
        assert(u.last() == s.last());
        let t = s.drop_last();
        assert forall|i: int, j: int|
            0 <= i < j < t.len() implies !(t[i].token == t[j].token
            && t[i].owner == t[j].owner) by {
            assert(t[i] == s[i]);
            assert(t[j] == s[j]);
        }
        assert(t[k] == s[k]);
        assert(u.drop_last() =~= t.update(k, e));
        lemma_bal_update(t, k, e, token, owner);
        if entry_matches(s.last(), token, owner) && entry_matches(e, token, owner) {
            // both s[k] and the last entry would carry the queried key
            assert(!(s[k].token == s[n].token && s[k].owner == s[n].owner));
            assert(false);
        }
    }
}

proof fn lemma_bal_nonnegative(s: Seq<BalanceEntry>, token: Address, owner: Address)
    requires
        entries_nonnegative(s),
    ensures
        bal_of(s, token, owner) >= 0,
    decreases s.len(),
{
    if s.len() > 0 && !entry_matches(s.last(), token, owner) {
        assert forall|i: int| 0 <= i < s.drop_last().len() implies s.drop_last()[i].amount
            >= 0 by {
            assert(s.drop_last()[i] == s[i]);
        }
        lemma_bal_nonnegative(s.drop_last(), token, owner);
    }
}

/// Whether `transfer(token, from, to, amount)` succeeds on `l`: the amount
/// is non-negative, the sender holds at least that much of the asset, and
/// the receiver's balance stays representable.
pub open spec fn can_transfer(
    l: TokenLedger,
    token: Address,
    from: Address,
    to: Address,
    amount: i128,
) -> bool {
    &&& amount >= 0
    &&& l.spec_balance(token, from) >= amount as int
    &&& (from != to ==> l.spec_balance(token, to) + amount as int <= i128::MAX as int)
}

/// How a successful `transfer(token, from, to, amount)` relates the ledger
/// after (`post`) to the ledger before (`pre`): the two named balances move
/// by exactly `amount`, and no other balance changes.
pub open spec fn ledger_moved(
    pre: TokenLedger,
    post: TokenLedger,
    token: Address,
    from: Address,
    to: Address,
    amount: i128,
) -> bool {
    &&& from != to ==> {
        &&& post.spec_balance(token, from) == pre.spec_balance(token, from) - amount as int
        &&& post.spec_balance(token, to) == pre.spec_balance(token, to) + amount as int
    }
    &&& from == to ==> post.spec_balance(token, from) == pre.spec_balance(token, from)
    &&& forall|t: Address, o: Address|
        !(t == token && (o == from || o == to)) ==> post.spec_balance(t, o) == pre.spec_balance(
            t,
            o,
        )
}

impl TokenLedger {
    /// The balance the ledger records for `owner` in asset `token`.
    pub closed spec fn spec_balance(&self, token: Address, owner: Address) -> int {
        bal_of(self.entries@, token, owner)
    }

    /// Well-formedness: one entry per `(token, owner)` pair, and no balance
    /// below zero — what a fungible-asset ledger maintains by construction.
    pub closed spec fn wf(&self) -> bool {
        distinct_keys(self.entries@) && entries_nonnegative(self.entries@)
    }

    /// An empty book: every balance is zero.
    pub fn new() -> (l: TokenLedger)
        ensures
            l.wf(),
            forall|t: Address, o: Address| l.spec_balance(t, o) == 0,
    {
        TokenLedger { entries: Vec::new() }
    }

    /// Every balance a well-formed ledger records is non-negative.
    pub proof fn lemma_balance_nonnegative(&self, token: Address, owner: Address)
        requires
            self.wf(),
        ensures
            self.spec_balance(token, owner) >= 0,
    {
        lemma_bal_nonnegative(self.entries@, token, owner);
    }

    fn find_index(&self, token: Address, owner: Address) -> (r: Option<usize>)
        ensures
            match r {
                Some(i) => i < self.entries@.len() && entry_matches(self.entries@[i as int], token, owner),
                None => forall|i: int|
                    0 <= i < self.entries@.len() ==> !entry_matches(self.entries@[i], token, owner),
            },
    {
        let mut i: usize = 0;
        while i < self.entries.len()
            invariant
                i <= self.entries@.len(),
                forall|j: int| 0 <= j < i ==> !entry_matches(self.entries@[j], token, owner),
            decreases self.entries@.len() - i,
        {
            if self.entries[i].token == token && self.entries[i].owner == owner {
                return Some(i);
            }
            i = i + 1;
        }
        None
    }

    /// The balance of `owner` in asset `token`; zero when the ledger has
    /// never recorded one.
    pub fn balance(&self, token: Address, owner: Address) -> (r: i128)
        requires
            self.wf(),
        ensures
            r as int == self.spec_balance(token, owner),
    {
        match self.find_index(token, owner) {
            Some(i) => {
                proof {
                    lemma_bal_found(self.entries@, i as int, token, owner);
                }
                self.entries[i].amount
            }
            None => {
                proof {
                    lemma_bal_absent(self.entries@, token, owner);
                }
                0
            }
        }
    }

    fn set_entry(&mut self, token: Address, owner: Address, value: i128)
        requires
            old(self).wf(),
            value >= 0,
        ensures
            final(self).wf(),
            final(self).spec_balance(token, owner) == value as int,
            forall|t: Address, o: Address|
                !(t == token && o == owner) ==> final(self).spec_balance(t, o) == old(
                    self,
                ).spec_balance(t, o),
    {
        let ghost s = self.entries@;
        let idx = self.find_index(token, owner);
        match idx {
            Some(i) => {
                let slot = &mut self.entries[i];
                slot.amount = value;
                proof {
                    let e = self.entries@[i as int];
                    assert(self.entries@ =~= s.update(i as int, e));
                    assert forall|i2: int, j2: int|
                        0 <= i2 < j2 < self.entries@.len() implies !(self.entries@[i2].token
                        == self.entries@[j2].token && self.entries@[i2].owner
                        == self.entries@[j2].owner) by {}
                    assert forall|i2: int| 0 <= i2 < self.entries@.len() implies self.entries@[i2].amount
                        >= 0 by {}
                    assert forall|t: Address, o: Address|
                        !(t == token && o == owner) implies #[trigger] final(self).spec_balance(t, o)
                        == old(self).spec_balance(t, o) by {
                        lemma_bal_update(s, i as int, e, t, o);
                    }
                    lemma_bal_update(s, i as int, e, token, owner);
                }
            }
            None => {
                let e = BalanceEntry { token, owner, amount: value };
                self.entries.push(e);
                proof {
                    assert forall|i2: int, j2: int|
                        0 <= i2 < j2 < self.entries@.len() implies !(self.entries@[i2].token
                        == self.entries@[j2].token && self.entries@[i2].owner
                        == self.entries@[j2].owner) by {
                        if j2 < s.len() {
                            assert(self.entries@[i2] == s[i2]);
                            assert(self.entries@[j2] == s[j2]);
                        } else {
                            assert(self.entries@[j2] == e);
                            assert(!entry_matches(s[i2], token, owner));
                        }
                    }
                    assert forall|t: Address, o: Address|
                        !(t == token && o == owner) implies #[trigger] final(self).spec_balance(t, o)
                        == old(self).spec_balance(t, o) by {
                        lemma_bal_push(s, e, t, o);
                    }
                    lemma_bal_push(s, e, token, owner);
                }
            }
        }
    }

    /// Credit `owner` with `amount` fresh units of `token` — how tests and
    /// callers endow accounts before the escrow runs.
    pub fn mint(&mut self, token: Address, owner: Address, amount: i128)
        requires
            old(self).wf(),
            amount >= 0,
            old(self).spec_balance(token, owner) + amount as int <= i128::MAX as int,
        ensures
            final(self).wf(),
            final(self).spec_balance(token, owner) == old(self).spec_balance(token, owner)
                + amount as int,
            forall|t: Address, o: Address|
                !(t == token && o == owner) ==> final(self).spec_balance(t, o) == old(
                    self,
                ).spec_balance(t, o),
    {
        let current = self.balance(token, owner);
        proof {
            self.lemma_balance_nonnegative(token, owner);
        }
        self.set_entry(token, owner, current + amount);
    }

    /// Move `amount` units of `token` from `from` to `to`, atomically:
    /// either both balances move or the ledger is left untouched.  Succeeds
    /// exactly when [`can_transfer`] holds of the ledger before the call.
    pub fn transfer(&mut self, token: Address, from: Address, to: Address, amount: i128) -> (r:
        Result<(), TransferError>)
        requires
            old(self).wf(),
        ensures
            final(self).wf(),
            r is Ok <==> can_transfer(*old(self), token, from, to, amount),
            r is Ok ==> ledger_moved(*old(self), *final(self), token, from, to, amount),
            r is Err ==> *final(self) == *old(self),
    {
        if amount < 0 {
            return Err(TransferError);
        }
        let from_balance = self.balance(token, from);
        if from_balance < amount {
            return Err(TransferError);
        }
        if from == to {
            return Ok(());
        }
        let to_balance = self.balance(token, to);
        if to_balance > i128::MAX - amount {
            return Err(TransferError);
        }
        proof {
            self.lemma_balance_nonnegative(token, to);
        }
        self.set_entry(token, from, from_balance - amount);
        self.set_entry(token, to, to_balance + amount);
        Ok(())
    }
}

} // verus!
