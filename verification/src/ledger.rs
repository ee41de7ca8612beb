//! The in-memory ledger: per-account balances and the primitives the minting
//! engine drives (`free_balance`, `reserve`, `deposit_creating`).

use crate::pallet::Error;
use std::collections::HashMap;
use vstd::prelude::*;

verus! {

broadcast use vstd::std_specs::hash::group_hash_axioms;

/// What the ledger keeps for one account: the collateral currency split into
/// a free part and a reserved part, and the balance in the synthetic token.
#[derive(Clone, Copy, Debug, PartialEq, Eq, Structural)]
pub struct AccountBalances {
    pub free_collateral: u32,
    pub reserved_collateral: u32,
    pub token_balance: u32,
}

impl AccountBalances {
    /// Free plus reserved is the account's total collateral holding, so the
    /// sum must itself fit the balance width.
    pub open spec fn wf(self) -> bool {
        self.free_collateral + self.reserved_collateral <= u32::MAX
    }

    /// The balances of an account the ledger has never seen.
    pub open spec fn spec_empty() -> AccountBalances {
        AccountBalances { free_collateral: 0, reserved_collateral: 0, token_balance: 0 }
    }

    /// An account with nothing in it.
    pub fn empty() -> (r: AccountBalances)
        ensures
            r == AccountBalances::spec_empty(),
    {
        AccountBalances { free_collateral: 0, reserved_collateral: 0, token_balance: 0 }
    }
}

/// The balance store. Accounts are identified by an opaque integer id; an
/// account that was never written reads as all-zero balances.
pub struct Ledger {
    accounts: HashMap<u64, AccountBalances>,
}

impl View for Ledger {
    type V = Map<u64, AccountBalances>;

    closed spec fn view(&self) -> Map<u64, AccountBalances> {
        self.accounts@
    }
}

impl Ledger {
    /// Every account the ledger holds has a well-formed balance triple.
    pub open spec fn wf(self) -> bool {
        forall|who: u64| self@.dom().contains(who) ==> (#[trigger] self@[who]).wf()
    }

    /// The balances of `who`: the stored triple, or all zeroes for an account
    /// the ledger has never seen.
    pub open spec fn balances_of(self, who: u64) -> AccountBalances {
        if self@.dom().contains(who) {
            self@[who]
        } else {
            AccountBalances::spec_empty()
        }
    }

    /// A ledger holding no accounts.
    pub fn new() -> (l: Ledger)
        ensures
            l.wf(),
            l@ == Map::<u64, AccountBalances>::empty(),
            forall|who: u64| #[trigger] l.balances_of(who) == AccountBalances::spec_empty(),
    {
        Ledger { accounts: HashMap::new() }
    }

    /// Writes an account's balances outright. This is the initialisation the
    /// ledger's owner performs before the engine ever runs; the engine itself
    /// never calls it.
    pub fn set_account(&mut self, who: u64, balances: AccountBalances)
        requires
            old(self).wf(),
            balances.wf(),
        ensures
            final(self).wf(),
            final(self)@ == old(self)@.insert(who, balances),
            final(self).balances_of(who) == balances,
            forall|other: u64|
                other != who ==> #[trigger] final(self).balances_of(other) == old(
                    self,
                ).balances_of(other),
    {
        self.accounts.insert(who, balances);
        proof {
            assert forall|w: u64| self@.dom().contains(w) implies (#[trigger] self@[w]).wf() by {
                if w != who {
                    assert(old(self)@.dom().contains(w) && self@[w] == old(self)@[w]);
                }
            }
        }
    }

    /// Reads the free part of `who`'s collateral balance.
    pub fn free_balance(&self, who: u64) -> (r: u32)
        ensures
            r == self.balances_of(who).free_collateral,
    {
        match self.accounts.get(&who) {
            Some(b) => b.free_collateral,
            None => 0,
        }
    }

    /// Reads `who`'s whole balance triple.
    pub fn balances(&self, who: u64) -> (r: AccountBalances)
        ensures
            r == self.balances_of(who),
    {
        match self.accounts.get(&who) {
            Some(b) => *b,
            None => AccountBalances::empty(),
        }
    }

    /// Moves `amount` from `who`'s free collateral to its reserved part.
    /// Sufficiency is validated here, at the moment of mutation: on a short
    /// free balance the call fails and the ledger is byte-for-byte unchanged.
    pub fn reserve(&mut self, who: u64, amount: u32) -> (r: Result<(), Error>)
        requires
            old(self).wf(),
        ensures
            final(self).wf(),
            r is Ok <==> old(self).balances_of(who).free_collateral >= amount,
            r is Err ==> r == Err::<(), Error>(Error::InsufficientETHCollateral),
            r is Err ==> final(self)@ == old(self)@,
            r is Ok ==> final(self)@ == old(self)@.insert(
                who,
                (AccountBalances {
                    free_collateral: (old(self).balances_of(who).free_collateral - amount) as u32,
                    reserved_collateral: (old(self).balances_of(who).reserved_collateral
                        + amount) as u32,
                    token_balance: old(self).balances_of(who).token_balance,
                }),
            ),
    {
        let pre = self.balances(who);
        if pre.free_collateral < amount {
            return Err(Error::InsufficientETHCollateral);
        }
        proof {
            assert(pre.wf());
        }
        let updated = AccountBalances {
            free_collateral: pre.free_collateral - amount,
            reserved_collateral: pre.reserved_collateral + amount,
            token_balance: pre.token_balance,
        };
        self.accounts.insert(who, updated);
        proof {
            assert forall|w: u64| self@.dom().contains(w) implies (#[trigger] self@[w]).wf() by {
                if w != who {
                    assert(old(self)@.dom().contains(w) && self@[w] == old(self)@[w]);
                }
            }
        }
        Ok(())
    }

    /// Credits `amount` of the synthetic token to `who`, creating the account
    /// if the ledger has never seen it. The caller must have made sure the
    /// credit fits the balance width; under that bound the credit cannot fail.
    pub fn deposit_creating(&mut self, who: u64, amount: u32)
        requires
            old(self).wf(),
            old(self).balances_of(who).token_balance + amount <= u32::MAX,
        ensures
            final(self).wf(),
            final(self)@ == old(self)@.insert(
                who,
                (AccountBalances {
                    free_collateral: old(self).balances_of(who).free_collateral,
                    reserved_collateral: old(self).balances_of(who).reserved_collateral,
                    token_balance: (old(self).balances_of(who).token_balance + amount) as u32,
                }),
            ),
    {
        let pre = self.balances(who);
        proof {
            assert(pre.wf());
        }
        let updated = AccountBalances {
            free_collateral: pre.free_collateral,
            reserved_collateral: pre.reserved_collateral,
            token_balance: pre.token_balance + amount,
        };
        self.accounts.insert(who, updated);
        proof {
            assert forall|w: u64| self@.dom().contains(w) implies (#[trigger] self@[w]).wf() by {
                if w != who {
                    assert(old(self)@.dom().contains(w) && self@[w] == old(self)@[w]);
                }
            }
        }
    }
}

} // verus!
