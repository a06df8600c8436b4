//! Custody ledger: the balances that the asset transfer gateway moves.
//!
//! A ledger holds one balance per (custody account, asset) pair. The
//! marketplace keeps two separate ledgers — one for settlement currency,
//! one for the tradable asset — so the two are never conflated. Transfers
//! are atomic: a transfer either debits and credits in full or fails with
//! `InsufficientFunds` and changes nothing.

use vstd::prelude::*;

use crate::errors::MarketplaceError;

verus! {

/// One custody balance: `balance` units of `asset` held for `account`.
#[derive(Clone, Copy, PartialEq, Eq, Structural, Debug)]
pub struct LedgerEntry {
    pub account: u64,
    pub asset: u64,
    pub balance: u64,
}

pub open spec fn entry_matches(e: LedgerEntry, account: u64, asset: u64) -> bool {
    e.account == account && e.asset == asset
}

/// Total balance the entries of `s` hold for `(account, asset)`.
pub open spec fn seq_balance(s: Seq<LedgerEntry>, account: u64, asset: u64) -> int
    decreases s.len(),
{
    if s.len() == 0 {
        0
    } else {
        seq_balance(s.drop_last(), account, asset) + if entry_matches(
            s.last(),
            account,
            asset,
        ) {
            s.last().balance as int
        } else {
            0
        }
    }
}

/// No two entries describe the same (account, asset) pair.
pub open spec fn seq_unique_keys(s: Seq<LedgerEntry>) -> bool {
    forall|i: int, j: int|
        0 <= i < j < s.len() ==> !(#[trigger] s[i].account == #[trigger] s[j].account
            && s[i].asset == s[j].asset)
}

/// Balances of custody accounts, one entry per (account, asset) pair.
pub struct Ledger {
    pub entries: Vec<LedgerEntry>,
}

impl Ledger {
    /// Balance held for `(account, asset)`; zero when no entry exists.
    pub open spec fn spec_balance(self, account: u64, asset: u64) -> int {
        seq_balance(self.entries@, account, asset)
    }

    pub open spec fn wf(self) -> bool {
        seq_unique_keys(self.entries@)
    }
}

proof fn lemma_seq_balance_no_match(s: Seq<LedgerEntry>, account: u64, asset: u64)
    requires
        forall|i: int| 0 <= i < s.len() ==> !entry_matches(#[trigger] s[i], account, asset),
    ensures
        seq_balance(s, account, asset) == 0,
    decreases s.len(),
{
    if s.len() > 0 {
        assert(s.last() == s[s.len() - 1]);
        lemma_seq_balance_no_match(s.drop_last(), account, asset);
    }
}

proof fn lemma_seq_balance_unique_match(s: Seq<LedgerEntry>, i: int, account: u64, asset: u64)
    requires
        seq_unique_keys(s),
        0 <= i < s.len(),
        entry_matches(s[i], account, asset),
    ensures
        seq_balance(s, account, asset) == s[i].balance as int,
    decreases s.len(),
{
    if i == s.len() - 1 {
        assert forall|k: int|
            0 <= k < s.drop_last().len() implies !entry_matches(
            #[trigger] s.drop_last()[k],
            account,
            asset,
        ) by {
            assert(s.drop_last()[k] == s[k]);
        }
        lemma_seq_balance_no_match(s.drop_last(), account, asset);
    } else {
        assert(!entry_matches(s[s.len() - 1], account, asset));
        assert(s.drop_last()[i] == s[i]);
        lemma_seq_balance_unique_match(s.drop_last(), i, account, asset);
    }
}

proof fn lemma_seq_balance_push(s: Seq<LedgerEntry>, e: LedgerEntry, account: u64, asset: u64)
    ensures
        seq_balance(s.push(e), account, asset) == seq_balance(s, account, asset) + if entry_matches(
            e,
            account,
            asset,
        ) {
            e.balance as int
        } else {
            0
        },
{
    assert(s.push(e).drop_last() =~= s);
    assert(s.push(e).last() == e);
}

proof fn lemma_seq_balance_update(
    s: Seq<LedgerEntry>,
    i: int,
    e: LedgerEntry,
    account: u64,
    asset: u64,
)
    requires
        0 <= i < s.len(),
    ensures
        seq_balance(s.update(i, e), account, asset) == seq_balance(s, account, asset) - (
        if entry_matches(s[i], account, asset) {
            s[i].balance as int
        } else {
            0
        }) + (
        if entry_matches(e, account, asset) {
            e.balance as int
        } else {
            0
        }),
    decreases s.len(),
{
    if i == s.len() - 1 {
        assert(s.update(i, e).drop_last() =~= s.drop_last());
        assert(s.update(i, e).last() == e);
    } else {
        assert(s.update(i, e).drop_last() =~= s.drop_last().update(i, e));
        assert(s.update(i, e).last() == s.last());
        assert(s.drop_last()[i] == s[i]);
        lemma_seq_balance_update(s.drop_last(), i, e, account, asset);
    }
}

impl Ledger {
    pub fn new() -> (r: Ledger)
        ensures
            r.wf(),
            forall|a: u64, t: u64| r.spec_balance(a, t) == 0,
    {
        Ledger { entries: Vec::new() }
    }

    /// Index of the entry for `(account, asset)`, if one exists.
    fn find_entry(&self, account: u64, asset: u64) -> (r: Option<usize>)
        ensures
            match r {
                Some(i) => i < self.entries@.len() && entry_matches(
                    self.entries@[i as int],
                    account,
                    asset,
                ),
                None => forall|i: int|
                    0 <= i < self.entries@.len() ==> !entry_matches(
                        #[trigger] self.entries@[i],
                        account,
                        asset,
                    ),
            },
    {
        let n = self.entries.len();
        let mut i: usize = 0;
        while i < n
            invariant
                n == self.entries@.len(),
                i <= n,
                forall|k: int|
                    0 <= k < i ==> !entry_matches(#[trigger] self.entries@[k], account, asset),
            decreases n - i,
        {
            let e = self.entries[i];
            if e.account == account && e.asset == asset {
                return Some(i);
            }
            i = i + 1;
        }
        None
    }

    /// Current balance of `(account, asset)`.
    pub fn balance_of(&self, account: u64, asset: u64) -> (r: u64)
        requires
            self.wf(),
        ensures
            r as int == self.spec_balance(account, asset),
    {
        match self.find_entry(account, asset) {
            Some(i) => {
                proof {
                    lemma_seq_balance_unique_match(self.entries@, i as int, account, asset);
                }
                self.entries[i].balance
            },
            None => {
                proof {
                    lemma_seq_balance_no_match(self.entries@, account, asset);
                }
                0
            },
        }
    }

    /// Add `amount` to the balance of `(account, asset)`, creating the
    /// entry when none exists.
    pub fn credit(&mut self, account: u64, asset: u64, amount: u64)
        requires
            old(self).wf(),
            old(self).spec_balance(account, asset) + amount <= u64::MAX,
        ensures
            final(self).wf(),
            final(self).spec_balance(account, asset) == old(self).spec_balance(account, asset)
                + amount,
            forall|a: u64, t: u64|
                !(a == account && t == asset) ==> #[trigger] final(self).spec_balance(a, t) == old(self).spec_balance(a, t),
    {
        match self.find_entry(account, asset) {
            Some(i) => {
                proof {
                    lemma_seq_balance_unique_match(self.entries@, i as int, account, asset);
                }
                let e = self.entries[i];
                let updated = LedgerEntry { account, asset, balance: e.balance + amount };
                proof {
                    lemma_seq_balance_update(self.entries@, i as int, updated, account, asset);
                    assert forall|a: u64, t: u64|
                        !(a == account && t == asset) implies #[trigger] seq_balance(
                        self.entries@.update(i as int, updated),
                        a,
                        t,
                    ) == seq_balance(self.entries@, a, t) by {
                        lemma_seq_balance_update(self.entries@, i as int, updated, a, t);
                    }
                }
                self.entries[i] = updated;
            },
            None => {
                proof {
                    lemma_seq_balance_no_match(self.entries@, account, asset);
                }
                let added = LedgerEntry { account, asset, balance: amount };
                proof {
                    lemma_seq_balance_push(self.entries@, added, account, asset);
                    assert forall|a: u64, t: u64|
                        !(a == account && t == asset) implies #[trigger] seq_balance(
                        self.entries@.push(added),
                        a,
                        t,
                    ) == seq_balance(self.entries@, a, t) by {
                        lemma_seq_balance_push(self.entries@, added, a, t);
                    }
                }
                self.entries.push(added);
            },
        }
    }

    /// Remove `amount` from the balance of `(account, asset)`; fails with
    /// `InsufficientFunds`, changing nothing, when the balance is short.
    pub fn debit(&mut self, account: u64, asset: u64, amount: u64) -> (r: Result<
        (),
        MarketplaceError,
    >)
        requires
            old(self).wf(),
        ensures
            final(self).wf(),
            r is Ok <==> old(self).spec_balance(account, asset) >= amount,
            r is Err ==> r == Err::<(), MarketplaceError>(MarketplaceError::InsufficientFunds)
                && final(self).entries@ == old(self).entries@,
            r is Ok ==> final(self).spec_balance(account, asset) == old(self).spec_balance(
                account,
                asset,
            ) - amount,
            forall|a: u64, t: u64|
                !(a == account && t == asset) ==> #[trigger] final(self).spec_balance(a, t) == old(self).spec_balance(a, t),
    {
        match self.find_entry(account, asset) {
            Some(i) => {
                proof {
                    lemma_seq_balance_unique_match(self.entries@, i as int, account, asset);
                }
                let e = self.entries[i];
                if e.balance < amount {
                    return Err(MarketplaceError::InsufficientFunds);
                }
                let updated = LedgerEntry { account, asset, balance: e.balance - amount };
                proof {
                    lemma_seq_balance_update(self.entries@, i as int, updated, account, asset);
                    assert forall|a: u64, t: u64|
                        !(a == account && t == asset) implies #[trigger] seq_balance(
                        self.entries@.update(i as int, updated),
                        a,
                        t,
                    ) == seq_balance(self.entries@, a, t) by {
                        lemma_seq_balance_update(self.entries@, i as int, updated, a, t);
                    }
                }
                self.entries[i] = updated;
                Ok(())
            },
            None => {
                proof {
                    lemma_seq_balance_no_match(self.entries@, account, asset);
                }
                if amount == 0 {
                    Ok(())
                } else {
                    Err(MarketplaceError::InsufficientFunds)
                }
            },
        }
    }

    /// Atomic movement of `amount` units of `asset` between two custody
    /// accounts: the gateway's one operation. Either both the debit and the
    /// credit happen, or the call fails with `InsufficientFunds` and every
    /// balance is left as it was.
    pub fn transfer(&mut self, from: u64, to: u64, asset: u64, amount: u64) -> (r: Result<
        (),
        MarketplaceError,
    >)
        requires
            old(self).wf(),
            from != to ==> old(self).spec_balance(to, asset) + amount <= u64::MAX,
        ensures
            final(self).wf(),
            r is Ok <==> old(self).spec_balance(from, asset) >= amount,
            r is Err ==> r == Err::<(), MarketplaceError>(MarketplaceError::InsufficientFunds)
                && final(self).entries@ == old(self).entries@,
            r is Ok && from != to ==> final(self).spec_balance(from, asset) == old(self).spec_balance(from, asset) - amount && final(self).spec_balance(to, asset) == old(self).spec_balance(to, asset) + amount,
            r is Ok && from == to ==> final(self).entries@ == old(self).entries@,
            forall|a: u64, t: u64|
                !(a == from && t == asset) && !(a == to && t == asset) ==> #[trigger] final(self).spec_balance(a, t) == old(self).spec_balance(a, t),
    {
        let available = self.balance_of(from, asset);
        if available < amount {
            return Err(MarketplaceError::InsufficientFunds);
        }
        if from == to {
            return Ok(());
        }
        let debited = self.debit(from, asset, amount);
        proof {
            assert(debited is Ok);
        }
        self.credit(to, asset, amount);
        Ok(())
    }
}

} // verus!
