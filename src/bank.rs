use vstd::prelude::*;
use std::collections::HashMap;
use crate::clock::Identity;

verus! {

broadcast use vstd::std_specs::hash::group_hash_axioms;

/// An amount of money.
pub type Money = u64;

/// A ledger account; accounts and process identities coincide.
pub type Account = Identity;

/// An operation that moves `amount` from account `from` to account `to`.
#[derive(Clone, Copy, Debug, PartialEq, Eq, Structural)]
pub struct Transfer {
    pub from: Account,
    pub to: Account,
    pub amount: Money,
}

/// The balance of `a` in `m`; an account that is absent holds nothing.
pub open spec fn balance_of(m: Map<Account, Money>, a: Account) -> nat {
    if m.contains_key(a) {
        m[a] as nat
    } else {
        0
    }
}

/// A transfer is valid for a sender when the sender authored it, the source
/// holds at least the amount, and the destination can take it without its
/// balance leaving the range of `Money`.
pub open spec fn transfer_valid(m: Map<Account, Money>, sender: Identity, t: Transfer) -> bool {
    &&& sender == t.from
    &&& t.amount as nat <= balance_of(m, t.from)
    &&& (t.from == t.to || balance_of(m, t.to) + t.amount as nat <= u64::MAX as nat)
}

/// The balances after `t` has been applied to `m`.
pub open spec fn after_transfer(m: Map<Account, Money>, t: Transfer) -> Map<Account, Money> {
    if t.from == t.to {
        m
    } else {
        m.insert(t.from, (balance_of(m, t.from) - t.amount) as u64).insert(
            t.to,
            (balance_of(m, t.to) + t.amount) as u64,
        )
    }
}

/// The local ledger: the balance each account was opened with, and the
/// balance it holds now.
pub struct Bank {
    id: Identity,
    initial: HashMap<Account, Money>,
    balances: HashMap<Account, Money>,
}

impl Bank {
    /// The balance each account was opened with.
    pub closed spec fn initial_view(&self) -> Map<Account, Money> {
        self.initial@
    }

    /// The balance each account holds now.
    pub closed spec fn balances_view(&self) -> Map<Account, Money> {
        self.balances@
    }

    /// The identity of the process that keeps this ledger.
    pub closed spec fn owner(&self) -> Identity {
        self.id
    }

    /// An empty ledger kept by process `id`.
    pub fn new(id: Identity) -> (r: Bank)
        ensures
            r.owner() == id,
            r.initial_view().dom() == Set::<Account>::empty(),
            r.balances_view().dom() == Set::<Account>::empty(),
    {
        Bank { id, initial: HashMap::new(), balances: HashMap::new() }
    }

    /// Opens account `a` with `balance`, as its initial and current balance.
    pub fn onboard_account(&mut self, a: Account, balance: Money)
        ensures
            final(self).owner() == old(self).owner(),
            final(self).initial_view() == old(self).initial_view().insert(a, balance),
            final(self).balances_view() == old(self).balances_view().insert(a, balance),
    {
        self.initial.insert(a, balance);
        self.balances.insert(a, balance);
    }

    /// The balance `a` was opened with (zero for an unknown account).
    pub fn initial_balance(&self, a: Account) -> (r: Money)
        ensures
            r as nat == balance_of(self.initial_view(), a),
    {
        match self.initial.get(&a) {
            Some(b) => *b,
            None => 0,
        }
    }

    /// The balance `a` holds now (zero for an unknown account).
    pub fn read(&self, a: Account) -> (r: Money)
        ensures
            r as nat == balance_of(self.balances_view(), a),
    {
        match self.balances.get(&a) {
            Some(b) => *b,
            None => 0,
        }
    }

    /// Builds a transfer of `amount` from `from` to `to`, when `from` holds
    /// at least `amount` now.
    pub fn transfer(&self, from: Account, to: Account, amount: Money) -> (r: Option<Transfer>)
        ensures
            amount as nat <= balance_of(self.balances_view(), from) <==> r.is_some(),
            r.is_some() ==> r == Some(Transfer { from, to, amount }),
    {
        if amount <= self.read(from) {
            Some(Transfer { from, to, amount })
        } else {
            None
        }
    }

    /// Whether `t`, sent by `sender`, may be applied to the ledger as it is.
    pub fn validate(&self, sender: Identity, t: &Transfer) -> (r: bool)
        ensures
            r == transfer_valid(self.balances_view(), sender, *t),
    {
        if sender != t.from {
            return false;
        }
        let src = self.read(t.from);
        if t.amount > src {
            return false;
        }
        if t.from == t.to {
            return true;
        }
        let dst = self.read(t.to);
        dst <= u64::MAX - t.amount
    }

    /// Moves the money of a valid transfer.
    pub fn apply(&mut self, t: Transfer)
        requires
            transfer_valid(old(self).balances_view(), t.from, t),
        ensures
            final(self).owner() == old(self).owner(),
            final(self).initial_view() == old(self).initial_view(),
            final(self).balances_view() == after_transfer(old(self).balances_view(), t),
    {
        if t.from != t.to {
            let src = self.read(t.from);
            let dst = self.read(t.to);
            self.balances.insert(t.from, src - t.amount);
            self.balances.insert(t.to, dst + t.amount);
        }
    }
}

} // verus!
