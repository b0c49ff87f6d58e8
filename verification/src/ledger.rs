//! The external fungible-asset ledger, at its interface boundary.
//!
//! The engine never reimplements the asset ledger's rules; it only calls
//! `transfer` and reads balances.  This model keeps one signed balance per
//! address, refuses a transfer that the real ledger would refuse (payer too
//! poor, payee balance overflowing), and changes nothing when it refuses.

use vstd::prelude::*;

use crate::errors::RewardErrorCode;
use crate::keyed::{distinct_keys, find_by, lemma_find_by_index, lemma_find_by_none,
    lemma_find_by_push, lemma_find_by_update};

verus! {

/// One ledger account: an address and what it holds.
#[derive(Clone, Copy, Debug)]
struct Account {
    address: u64,
    balance: i128,
}

/// The key of a ledger account.
spec fn account_key() -> spec_fn(Account) -> u64 {
    |a: Account| a.address
}

/// A fungible-asset ledger holding one balance per address; every address
/// not listed holds zero.
pub struct TokenLedger {
    accounts: Vec<Account>,
}

impl TokenLedger {
    /// What `address` holds on the ledger.
    pub closed spec fn spec_balance(self, address: u64) -> i128 {
        match find_by(self.accounts@, account_key(), address) {
            Some(a) => a.balance,
            None => 0,
        }
    }

    /// Every address appears at most once and holds a non-negative balance.
    pub closed spec fn wf(self) -> bool {
        &&& distinct_keys(self.accounts@, account_key())
        &&& forall|a: u64| self.spec_balance(a) >= 0
    }

    /// An empty ledger: every address holds zero.
    pub fn new() -> (r: TokenLedger)
        ensures
            r.wf(),
            forall|a: u64| r.spec_balance(a) == 0,
    {
        let r = TokenLedger { accounts: Vec::new() };
        proof {
            assert forall|a: u64| r.spec_balance(a) == 0 by {
                assert(find_by(r.accounts@, account_key(), a) is None);
            }
        }
        r
    }

    /// Index of the account of `address`, tied to the spec-level lookup.
    fn find_index(&self, address: u64) -> (r: Option<usize>)
        ensures
            match r {
                Some(i) => i < self.accounts@.len() && self.accounts@[i as int].address == address
                    && find_by(self.accounts@, account_key(), address) == Some(
                    self.accounts@[i as int],
                ),
                None => find_by(self.accounts@, account_key(), address) is None,
            },
    {
        let mut i: usize = 0;
        while i < self.accounts.len()
            invariant
                i <= self.accounts.len(),
                forall|j: int| 0 <= j < i ==> self.accounts@[j].address != address,
            decreases self.accounts.len() - i,
        {
            if self.accounts[i].address == address {
                proof {
                    lemma_find_by_index(self.accounts@, account_key(), i as int);
                }
                return Some(i);
            }
            i += 1;
        }
        proof {
            lemma_find_by_none(self.accounts@, account_key(), address);
        }
        None
    }

    /// Returns what `address` holds.
    pub fn balance(&self, address: u64) -> (r: i128)
        ensures
            r == self.spec_balance(address),
    {
        match self.find_index(address) {
            Some(i) => self.accounts[i].balance,
            None => 0,
        }
    }

    /// Issues `amount` new units to `to`, as the asset's administrator would.
    pub fn mint(&mut self, to: u64, amount: i128)
        requires
            old(self).wf(),
            amount >= 0,
            old(self).spec_balance(to) + amount <= i128::MAX,
        ensures
            final(self).wf(),
            forall|a: u64|
                final(self).spec_balance(a) == old(self).spec_balance(a) + (if a == to {
                    amount
                } else {
                    0
                }),
    {
        match self.find_index(to) {
            Some(i) => {
                let mut e = self.accounts[i];
                e.balance = e.balance + amount;
                self.accounts.set(i, e);
                proof {
                    lemma_find_by_update(old(self).accounts@, account_key(), i as int, e);
                }
            },
            None => {
                self.accounts.push(Account { address: to, balance: amount });
                proof {
                    lemma_find_by_push(
                        old(self).accounts@,
                        account_key(),
                        Account { address: to, balance: amount },
                    );
                }
            },
        }
        proof {
            assert forall|a: u64| self.spec_balance(a) >= 0 by {
                assert(old(self).spec_balance(a) >= 0);
            }
        }
    }

    /// Moves `amount` from `from` to `to`.  Refuses, changing nothing, when
    /// `from` holds less than `amount` or the credit would overflow `to`.
    pub fn transfer(&mut self, from: u64, to: u64, amount: i128) -> (r: Result<
        (),
        RewardErrorCode,
    >)
        requires
            old(self).wf(),
            amount > 0,
        ensures
            final(self).wf(),
            r is Err ==> r == Err::<(), RewardErrorCode>(RewardErrorCode::TransferFailed)
                && *final(self) == *old(self),
            (r is Ok <==> old(self).spec_balance(from) >= amount && (from == to || old(
                self,
            ).spec_balance(to) + amount <= i128::MAX)),
            r is Ok ==> forall|a: u64|
                final(self).spec_balance(a) == old(self).spec_balance(a) + (if a == to {
                    amount
                } else {
                    0
                }) - (if a == from {
                    amount
                } else {
                    0
                }),
    {
        let from_idx = match self.find_index(from) {
            Some(i) => i,
            None => {
                return Err(RewardErrorCode::TransferFailed);
            },
        };
        if self.accounts[from_idx].balance < amount {
            return Err(RewardErrorCode::TransferFailed);
        }
        if from == to {
            return Ok(());
        }
        let to_opt = self.find_index(to);
        if let Some(ti) = to_opt {
            if self.accounts[ti].balance > i128::MAX - amount {
                return Err(RewardErrorCode::TransferFailed);
            }
        }
        let mut fe = self.accounts[from_idx];
        fe.balance = fe.balance - amount;
        self.accounts.set(from_idx, fe);
        proof {
            lemma_find_by_update(old(self).accounts@, account_key(), from_idx as int, fe);
        }
        let ghost mid = self.accounts@;
        match to_opt {
            Some(ti) => {
                proof {
                    assert(ti != from_idx);
                    assert(mid[ti as int] == old(self).accounts@[ti as int]);
                }
                let mut te = self.accounts[ti];
                te.balance = te.balance + amount;
                self.accounts.set(ti, te);
                proof {
                    lemma_find_by_update(mid, account_key(), ti as int, te);
                }
            },
            None => {
                self.accounts.push(Account { address: to, balance: amount });
                proof {
                    assert(find_by(mid, account_key(), to) is None);
                    lemma_find_by_push(mid, account_key(), Account { address: to, balance: amount });
                }
            },
        }
        proof {
            assert forall|a: u64| self.spec_balance(a) >= 0 by {
                assert(old(self).spec_balance(a) >= 0);
            }
        }
        Ok(())
    }
}

} // verus!
