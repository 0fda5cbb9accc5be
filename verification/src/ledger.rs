//! The balance ledger the pot sits on: a key-value store from account
//! addresses to unsigned balances, with the transfer and credit primitives
//! the pot's operations go through.

use std::collections::BTreeMap;
use vstd::prelude::*;

verus! {

broadcast use vstd::laws_cmp::group_laws_cmp;

/// A failure surfaced by one of the ledger's primitives.
#[derive(Clone, Copy, Debug, PartialEq, Eq, Structural)]
pub enum LedgerError {
    /// The sender's spendable balance cannot cover the requested amount.
    InsufficientBalance,
    /// Crediting the recipient would overflow its balance.
    Overflow,
}

/// The balance of `who` under balances `m`: an account with no entry holds nothing.
pub open spec fn bal(m: Map<u64, u64>, who: u64) -> u64 {
    if m.contains_key(who) {
        m[who]
    } else {
        0
    }
}

/// What `who` may spend out of `m`: the whole balance when the account may be
/// removed from existence, otherwise only what lies above the minimum `min`.
pub open spec fn spendable(m: Map<u64, u64>, who: u64, min: u64, allow_removal: bool) -> u64 {
    if allow_removal {
        bal(m, who)
    } else if bal(m, who) >= min {
        (bal(m, who) - min) as u64
    } else {
        0
    }
}

/// Whether a transfer of `amount` from `from` to `to` applies to balances `m`:
/// the sender can spend the amount and the recipient's balance does not overflow.
pub open spec fn transfer_ok(
    m: Map<u64, u64>,
    from: u64,
    to: u64,
    amount: u64,
    min: u64,
    allow_removal: bool,
) -> bool {
    &&& spendable(m, from, min, allow_removal) >= amount
    &&& (from == to || bal(m, to) + amount <= u64::MAX)
}

/// The balances after a transfer of `amount` from `from` to `to`, meaningful
/// when [`transfer_ok`] holds. A transfer to oneself moves nothing. A sender
/// drained to nothing is removed from existence when `allow_removal` is set;
/// the recipient is created when missing.
pub open spec fn transfer_map(
    m: Map<u64, u64>,
    from: u64,
    to: u64,
    amount: u64,
    allow_removal: bool,
) -> Map<u64, u64> {
    if from == to {
        m
    } else {
        let debited = if !m.contains_key(from) {
            m
        } else if bal(m, from) == amount && allow_removal {
            m.remove(from)
        } else {
            m.insert(from, (bal(m, from) - amount) as u64)
        };
        debited.insert(to, (bal(m, to) + amount) as u64)
    }
}

/// A quantity of value created elsewhere in the surrounding system that must
/// be credited somewhere to keep the total supply consistent.
pub struct NegativeImbalance {
    amount: u64,
}

impl View for NegativeImbalance {
    type V = u64;

    closed spec fn view(&self) -> u64 {
        self.amount
    }
}

impl NegativeImbalance {
    /// Wrap a surplus of `amount`.
    pub fn new(amount: u64) -> (r: NegativeImbalance)
        ensures
            r@ == amount,
    {
        NegativeImbalance { amount }
    }

    /// The numeric magnitude of the surplus.
    pub fn peek(&self) -> (r: u64)
        ensures
            r == self@,
    {
        self.amount
    }
}

/// The balance ledger: every account's free balance, and the minimum balance
/// an account must retain to stay in existence when removal is not permitted.
pub struct Ledger {
    accounts: BTreeMap<u64, u64>,
    min_balance: u64,
}

impl View for Ledger {
    type V = Map<u64, u64>;

    closed spec fn view(&self) -> Map<u64, u64> {
        self.accounts@
    }
}

impl Ledger {
    /// The ledger's minimum viable balance.
    pub closed spec fn min_spec(&self) -> u64 {
        self.min_balance
    }

    /// An empty ledger with minimum viable balance `min_balance`.
    pub fn new(min_balance: u64) -> (r: Ledger)
        ensures
            r@ == Map::<u64, u64>::empty(),
            r.min_spec() == min_balance,
    {
        Ledger { accounts: BTreeMap::new(), min_balance }
    }

    /// The minimum balance an account must retain to stay in existence.
    pub fn minimum_balance(&self) -> (r: u64)
        ensures
            r == self.min_spec(),
    {
        self.min_balance
    }

    /// The free balance of `who`: nothing for an account with no entry.
    pub fn free_balance(&self, who: u64) -> (r: u64)
        ensures
            r == bal(self@, who),
    {
        match self.accounts.get(&who) {
            Some(b) => *b,
            None => 0,
        }
    }

    /// Set `who`'s balance to exactly `amount`, creating the account when missing.
    pub fn make_free_balance_be(&mut self, who: u64, amount: u64)
        ensures
            final(self)@ == old(self)@.insert(who, amount),
            final(self).min_spec() == old(self).min_spec(),
    {
        self.accounts.insert(who, amount);
    }

    /// Move `amount` from `from` to `to`, all or nothing.
    ///
    /// The transfer fails with [`LedgerError::InsufficientBalance`] when the
    /// sender cannot spend `amount`, and with [`LedgerError::Overflow`] when
    /// the recipient's balance cannot take it; a failed transfer changes no
    /// balance. On success the balances evolve as [`transfer_map`] says.
    pub fn transfer(&mut self, from: u64, to: u64, amount: u64, allow_removal: bool) -> (r: Result<
        (),
        LedgerError,
    >)
        ensures
            final(self).min_spec() == old(self).min_spec(),
            r is Ok <==> transfer_ok(
                old(self)@,
                from,
                to,
                amount,
                old(self).min_spec(),
                allow_removal,
            ),
            r is Ok ==> final(self)@ == transfer_map(old(self)@, from, to, amount, allow_removal),
            r is Err ==> final(self)@ == old(self)@,
            spendable(old(self)@, from, old(self).min_spec(), allow_removal) < amount ==> r
                == Result::<(), LedgerError>::Err(LedgerError::InsufficientBalance),
            spendable(old(self)@, from, old(self).min_spec(), allow_removal) >= amount
                && !transfer_ok(old(self)@, from, to, amount, old(self).min_spec(), allow_removal)
                ==> r == Result::<(), LedgerError>::Err(LedgerError::Overflow),
    {
        let from_balance = self.free_balance(from);
        let available = if allow_removal {
            from_balance
        } else if from_balance >= self.min_balance {
            from_balance - self.min_balance
        } else {
            0
        };
        if available < amount {
            return Err(LedgerError::InsufficientBalance);
        }
        if from == to {
            return Ok(());
        }
        let to_balance = self.free_balance(to);
        if amount > u64::MAX - to_balance {
            return Err(LedgerError::Overflow);
        }
        if from_balance == amount && allow_removal {
            self.accounts.remove(&from);
        } else if self.accounts.contains_key(&from) {
            self.accounts.insert(from, from_balance - amount);
        }
        self.accounts.insert(to, to_balance + amount);
        proof {
            assert(self@ =~= transfer_map(old(self)@, from, to, amount, allow_removal));
        }
        Ok(())
    }

    /// Credit `imbalance` into `who`, creating the account when missing.
    /// This primitive cannot fail: the surplus is always absorbed whole.
    pub fn resolve_creating(&mut self, who: u64, imbalance: NegativeImbalance)
        requires
            bal(old(self)@, who) + imbalance@ <= u64::MAX,
        ensures
            final(self)@ == old(self)@.insert(who, (bal(old(self)@, who) + imbalance@) as u64),
            final(self).min_spec() == old(self).min_spec(),
    {
        let current = self.free_balance(who);
        let amount = imbalance.peek();
        self.accounts.insert(who, current + amount);
    }
}

} // verus!
