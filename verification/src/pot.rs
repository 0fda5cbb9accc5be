//! The pot: a keyless account derived from a fixed identifier, the three
//! operations that move value through it, and the audit events they emit.
//!
//! Each operation is an atomic transition of the ledger's balances. The spec
//! functions [`step_ok`], [`step_map`], [`step_event`] and [`step_err`] give
//! the transition relation in full: whether an operation applies, the balances
//! it leaves, the one event a success appends, and the error a failure
//! reports. Every operation's contract is stated over them.

use crate::ledger::{bal, transfer_map, transfer_ok, Ledger, LedgerError, NegativeImbalance};
use vstd::prelude::*;

verus! {

/// The provenance of a call: an authenticated account, the privileged (root)
/// authority, or unauthenticated internal system code.
#[derive(Clone, Copy, Debug, PartialEq, Eq, Structural)]
pub enum Origin {
    Signed(u64),
    Root,
    System,
}

/// A failure of one of the pot's operations.
#[derive(Clone, Copy, Debug, PartialEq, Eq, Structural)]
pub enum Error {
    /// The origin is of the wrong kind for the requested operation.
    BadOrigin,
    /// The donor's balance cannot cover the donation.
    InsufficientFunds,
    /// The pot's balance cannot cover the allocation.
    InsufficientPotFunds,
    /// Any other failure surfaced by the ledger, passed through opaquely.
    Ledger(LedgerError),
}

/// An audit record of one completed operation. The last field of every
/// variant is the pot's balance right after the mutation.
#[derive(Clone, Copy, Debug, PartialEq, Eq, Structural)]
pub enum Event {
    /// A donor made a voluntary donation: donor, amount, resulting pot balance.
    DonationReceived(u64, u64, u64),
    /// A surplus from elsewhere was absorbed: amount, resulting pot balance.
    ImbalanceAbsorbed(u64, u64),
    /// The pot disbursed funds: destination, amount, resulting pot balance.
    FundsAllocated(u64, u64, u64),
}

/// The resulting pot balance an event reports.
pub open spec fn event_pot_balance(e: Event) -> u64 {
    match e {
        Event::DonationReceived(_, _, b) => b,
        Event::ImbalanceAbsorbed(_, b) => b,
        Event::FundsAllocated(_, _, b) => b,
    }
}

/// One operation on the pot, as handed to dispatch.
#[derive(Clone, Copy, Debug, PartialEq, Eq, Structural)]
pub enum Op {
    /// A voluntary contribution: origin, amount.
    Donate(Origin, u64),
    /// A privileged disbursement: origin, destination, amount.
    Allocate(Origin, u64, u64),
    /// A surplus credited by internal system code: amount.
    AbsorbImbalance(u64),
}

/// The fixed eight-byte identifier that names the pot, `"Charity!"` in ASCII.
pub const PALLET_ID: [u8; 8] = [0x43, 0x68, 0x61, 0x72, 0x69, 0x74, 0x79, 0x21];

/// The pot's address: the fixed identifier read as a little-endian integer.
/// A pure function of a constant, so every call yields the same address, and
/// no private key exists for it.
pub open spec fn pot_account_id() -> u64 {
    ((PALLET_ID[0] as u64) + (PALLET_ID[1] as u64) * 0x100 + (PALLET_ID[2] as u64) * 0x1_0000 + (
    PALLET_ID[3] as u64) * 0x100_0000 + (PALLET_ID[4] as u64) * 0x1_0000_0000 + (
    PALLET_ID[5] as u64) * 0x100_0000_0000 + (PALLET_ID[6] as u64) * 0x1_0000_0000_0000 + (
    PALLET_ID[7] as u64) * 0x100_0000_0000_0000) as u64
}

/// Whether `op` applies to balances `m`: the origin is of the right kind and
/// the balances admit the movement.
pub open spec fn step_ok(m: Map<u64, u64>, op: Op) -> bool {
    match op {
        Op::Donate(origin, amount) => match origin {
            Origin::Signed(donor) => transfer_ok(m, donor, pot_account_id(), amount, 0, true),
            _ => false,
        },
        Op::Allocate(origin, dest, amount) => origin is Root && transfer_ok(
            m,
            pot_account_id(),
            dest,
            amount,
            0,
            true,
        ),
        Op::AbsorbImbalance(amount) => bal(m, pot_account_id()) + amount <= u64::MAX,
    }
}

/// The balances after `op`: unchanged when the operation fails.
pub open spec fn step_map(m: Map<u64, u64>, op: Op) -> Map<u64, u64> {
    if !step_ok(m, op) {
        m
    } else {
        match op {
            Op::Donate(origin, amount) => match origin {
                Origin::Signed(donor) => transfer_map(m, donor, pot_account_id(), amount, true),
                _ => m,
            },
            Op::Allocate(_, dest, amount) => transfer_map(m, pot_account_id(), dest, amount, true),
            Op::AbsorbImbalance(amount) => m.insert(
                pot_account_id(),
                (bal(m, pot_account_id()) + amount) as u64,
            ),
        }
    }
}

/// The one event a successful `op` appends; meaningful when [`step_ok`] holds.
pub open spec fn step_event(m: Map<u64, u64>, op: Op) -> Event {
    match op {
        Op::Donate(origin, amount) => match origin {
            Origin::Signed(donor) => Event::DonationReceived(
                donor,
                amount,
                bal(step_map(m, op), pot_account_id()),
            ),
            _ => arbitrary(),
        },
        Op::Allocate(_, dest, amount) => Event::FundsAllocated(
            dest,
            amount,
            bal(step_map(m, op), pot_account_id()),
        ),
        Op::AbsorbImbalance(amount) => Event::ImbalanceAbsorbed(
            amount,
            bal(step_map(m, op), pot_account_id()),
        ),
    }
}

/// The error a failing `op` reports; meaningful when [`step_ok`] does not hold.
/// The origin is checked before any balance, and insufficiency before overflow.
pub open spec fn step_err(m: Map<u64, u64>, op: Op) -> Error {
    match op {
        Op::Donate(origin, amount) => match origin {
            Origin::Signed(donor) => if bal(m, donor) < amount {
                Error::InsufficientFunds
            } else {
                Error::Ledger(LedgerError::Overflow)
            },
            _ => Error::BadOrigin,
        },
        Op::Allocate(origin, _, amount) => if !(origin is Root) {
            Error::BadOrigin
        } else if bal(m, pot_account_id()) < amount {
            Error::InsufficientPotFunds
        } else {
            Error::Ledger(LedgerError::Overflow)
        },
        Op::AbsorbImbalance(_) => Error::Ledger(LedgerError::Overflow),
    }
}

/// The pot's operations. The pot owns no state of its own: every operation
/// reads and writes balances through the ledger it is handed, and appends its
/// audit record to the event log it is handed.
pub struct Module;

impl Module {
    /// The address that holds the pot's funds: the same value on every call,
    /// with no side effects.
    pub fn account_id() -> (r: u64)
        ensures
            r == pot_account_id(),
    {
        (PALLET_ID[0] as u64) + (PALLET_ID[1] as u64) * 0x100 + (PALLET_ID[2] as u64) * 0x1_0000 + (
        PALLET_ID[3] as u64) * 0x100_0000 + (PALLET_ID[4] as u64) * 0x1_0000_0000 + (
        PALLET_ID[5] as u64) * 0x100_0000_0000 + (PALLET_ID[6] as u64) * 0x1_0000_0000_0000 + (
        PALLET_ID[7] as u64) * 0x100_0000_0000_0000
    }

    /// Create the pot's account at genesis, holding the ledger's minimum
    /// viable balance, so it exists before any donation or allocation.
    pub fn initialize(ledger: &mut Ledger)
        ensures
            final(ledger)@ == old(ledger)@.insert(pot_account_id(), old(ledger).min_spec()),
            final(ledger).min_spec() == old(ledger).min_spec(),
    {
        let min = ledger.minimum_balance();
        ledger.make_free_balance_be(Self::account_id(), min);
    }

    /// The pot's current balance.
    pub fn pot(ledger: &Ledger) -> (r: u64)
        ensures
            r == bal(ledger@, pot_account_id()),
    {
        ledger.free_balance(Self::account_id())
    }

    /// Donate `amount` from the signed caller into the pot.
    ///
    /// Fails with [`Error::BadOrigin`] unless the origin is an authenticated
    /// account, and with [`Error::InsufficientFunds`] when the donor's balance
    /// cannot cover `amount`; a failure changes no balance and emits nothing.
    /// On success exactly one [`Event::DonationReceived`] is appended.
    pub fn donate(ledger: &mut Ledger, events: &mut Vec<Event>, origin: Origin, amount: u64) -> (r:
        Result<(), Error>)
        ensures
            final(ledger)@ == step_map(old(ledger)@, Op::Donate(origin, amount)),
            final(ledger).min_spec() == old(ledger).min_spec(),
            r is Ok <==> step_ok(old(ledger)@, Op::Donate(origin, amount)),
            r is Ok ==> final(events)@ == old(events)@.push(
                step_event(old(ledger)@, Op::Donate(origin, amount)),
            ),
            r is Err ==> final(events)@ == old(events)@ && r == Result::<(), Error>::Err(
                step_err(old(ledger)@, Op::Donate(origin, amount)),
            ),
    {
        let donor = match origin {
            Origin::Signed(a) => a,
            _ => {
                return Err(Error::BadOrigin);
            },
        };
        match ledger.transfer(donor, Self::account_id(), amount, true) {
            Ok(()) => {
                let new_pot = Self::pot(ledger);
                events.push(Event::DonationReceived(donor, amount, new_pot));
                Ok(())
            },
            Err(LedgerError::InsufficientBalance) => Err(Error::InsufficientFunds),
            Err(e) => Err(Error::Ledger(e)),
        }
    }

    /// Allocate `amount` from the pot to `dest`, privileged callers only.
    ///
    /// Fails with [`Error::BadOrigin`] unless the origin is root — checked
    /// before any balance — and with [`Error::InsufficientPotFunds`] when the
    /// pot's balance cannot cover `amount`; a failure changes no balance and
    /// emits nothing. On success exactly one [`Event::FundsAllocated`] is
    /// appended.
    pub fn allocate(
        ledger: &mut Ledger,
        events: &mut Vec<Event>,
        origin: Origin,
        dest: u64,
        amount: u64,
    ) -> (r: Result<(), Error>)
        ensures
            final(ledger)@ == step_map(old(ledger)@, Op::Allocate(origin, dest, amount)),
            final(ledger).min_spec() == old(ledger).min_spec(),
            r is Ok <==> step_ok(old(ledger)@, Op::Allocate(origin, dest, amount)),
            r is Ok ==> final(events)@ == old(events)@.push(
                step_event(old(ledger)@, Op::Allocate(origin, dest, amount)),
            ),
            r is Err ==> final(events)@ == old(events)@ && r == Result::<(), Error>::Err(
                step_err(old(ledger)@, Op::Allocate(origin, dest, amount)),
            ),
    {
        match origin {
            Origin::Root => (),
            _ => {
                return Err(Error::BadOrigin);
            },
        }
        match ledger.transfer(Self::account_id(), dest, amount, true) {
            Ok(()) => {
                let new_pot = Self::pot(ledger);
                events.push(Event::FundsAllocated(dest, amount, new_pot));
                Ok(())
            },
            Err(LedgerError::InsufficientBalance) => Err(Error::InsufficientPotFunds),
            Err(e) => Err(Error::Ledger(e)),
        }
    }

    /// Absorb a surplus imbalance into the pot.
    ///
    /// Called by trusted internal system code only, so no origin is checked;
    /// the credit creates the pot's account when missing and cannot fail.
    /// Exactly one [`Event::ImbalanceAbsorbed`] is appended.
    pub fn on_nonzero_unbalanced(
        ledger: &mut Ledger,
        events: &mut Vec<Event>,
        amount: NegativeImbalance,
    )
        requires
            bal(old(ledger)@, pot_account_id()) + amount@ <= u64::MAX,
        ensures
            final(ledger)@ == step_map(old(ledger)@, Op::AbsorbImbalance(amount@)),
            final(ledger).min_spec() == old(ledger).min_spec(),
            final(events)@ == old(events)@.push(
                step_event(old(ledger)@, Op::AbsorbImbalance(amount@)),
            ),
    {
        let numeric_amount = amount.peek();
        ledger.resolve_creating(Self::account_id(), amount);
        let new_pot = Self::pot(ledger);
        events.push(Event::ImbalanceAbsorbed(numeric_amount, new_pot));
    }

    /// Apply one operation: the single entry point an outer dispatch layer
    /// calls after authenticating the origin it hands over.
    pub fn dispatch(ledger: &mut Ledger, events: &mut Vec<Event>, op: Op) -> (r: Result<(), Error>)
        requires
            op matches Op::AbsorbImbalance(amount) ==> bal(old(ledger)@, pot_account_id()) + amount
                <= u64::MAX,
        ensures
            final(ledger)@ == step_map(old(ledger)@, op),
            final(ledger).min_spec() == old(ledger).min_spec(),
            r is Ok <==> step_ok(old(ledger)@, op),
            r is Ok ==> final(events)@ == old(events)@.push(step_event(old(ledger)@, op)),
            r is Err ==> final(events)@ == old(events)@ && r == Result::<(), Error>::Err(
                step_err(old(ledger)@, op),
            ),
    {
        match op {
            Op::Donate(origin, amount) => Self::donate(ledger, events, origin, amount),
            Op::Allocate(origin, dest, amount) => Self::allocate(ledger, events, origin, dest, amount),
            Op::AbsorbImbalance(amount) => {
                Self::on_nonzero_unbalanced(ledger, events, NegativeImbalance::new(amount));
                Ok(())
            },
        }
    }
}

} // verus!
