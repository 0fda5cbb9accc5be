//! The properties that hold of the pot, stated over the transition model of
//! [`crate::pot`] and proved for every balance map and every sequence of
//! operations.

use crate::ledger::bal;
use crate::pot::{
    event_pot_balance, pot_account_id, step_err, step_event, step_map, step_ok, Error, Op, Origin,
};
use vstd::prelude::*;

verus! {

/// Whether `op` names the pot itself as its counterparty: a donation signed
/// by the pot's own keyless address (which no key can sign for), or an
/// allocation back into the pot. Such an operation moves nothing.
pub open spec fn op_counterparty_is_pot(op: Op) -> bool {
    match op {
        Op::Donate(origin, _) => origin == Origin::Signed(pot_account_id()),
        Op::Allocate(_, dest, _) => dest == pot_account_id(),
        Op::AbsorbImbalance(_) => false,
    }
}

/// Balances after applying each operation of `ops` in order to `m`.
pub open spec fn apply_ops(m: Map<u64, u64>, ops: Seq<Op>) -> Map<u64, u64>
    decreases ops.len(),
{
    if ops.len() == 0 {
        m
    } else {
        apply_ops(step_map(m, ops[0]), ops.drop_first())
    }
}

/// The amount a donation contributes from balances `m`: zero unless `op` is a
/// donation that succeeds there.
pub open spec fn donation_of(m: Map<u64, u64>, op: Op) -> int {
    if step_ok(m, op) {
        match op {
            Op::Donate(_, amount) => amount as int,
            _ => 0,
        }
    } else {
        0
    }
}

/// The amount an absorption contributes from balances `m`: zero unless `op`
/// is an absorption that succeeds there.
pub open spec fn absorption_of(m: Map<u64, u64>, op: Op) -> int {
    if step_ok(m, op) {
        match op {
            Op::AbsorbImbalance(amount) => amount as int,
            _ => 0,
        }
    } else {
        0
    }
}

/// The amount an allocation disburses from balances `m`: zero unless `op` is
/// an allocation that succeeds there.
pub open spec fn allocation_of(m: Map<u64, u64>, op: Op) -> int {
    if step_ok(m, op) {
        match op {
            Op::Allocate(_, _, amount) => amount as int,
            _ => 0,
        }
    } else {
        0
    }
}

/// The sum of the donations of `ops` that succeed, each judged at the
/// balances in force when it runs.
pub open spec fn donated(m: Map<u64, u64>, ops: Seq<Op>) -> int
    decreases ops.len(),
{
    if ops.len() == 0 {
        0
    } else {
        donation_of(m, ops[0]) + donated(step_map(m, ops[0]), ops.drop_first())
    }
}

/// The sum of the absorptions of `ops` that succeed, each judged at the
/// balances in force when it runs.
pub open spec fn absorbed(m: Map<u64, u64>, ops: Seq<Op>) -> int
    decreases ops.len(),
{
    if ops.len() == 0 {
        0
    } else {
        absorption_of(m, ops[0]) + absorbed(step_map(m, ops[0]), ops.drop_first())
    }
}

/// The sum of the allocations of `ops` that succeed, each judged at the
/// balances in force when it runs.
pub open spec fn allocated(m: Map<u64, u64>, ops: Seq<Op>) -> int
    decreases ops.len(),
{
    if ops.len() == 0 {
        0
    } else {
        allocation_of(m, ops[0]) + allocated(step_map(m, ops[0]), ops.drop_first())
    }
}

/// One operation moves the pot's balance by exactly its contribution: up by a
/// successful donation or absorption, down by a successful allocation, not at
/// all by a failure.
pub proof fn lemma_step_pot_balance(m: Map<u64, u64>, op: Op)
    requires
        !op_counterparty_is_pot(op),
    ensures
        bal(step_map(m, op), pot_account_id()) as int == bal(m, pot_account_id()) + donation_of(
            m,
            op,
        ) + absorption_of(m, op) - allocation_of(m, op),
{
}

/// Conservation: over any sequence of operations whose counterparty is not
/// the pot itself, the pot's final balance is its initial balance plus the
/// donations and absorptions that succeeded, minus the allocations that
/// succeeded — exactly, with no drift.
pub proof fn lemma_pot_conservation(m: Map<u64, u64>, ops: Seq<Op>)
    requires
        forall|i: int| 0 <= i < ops.len() ==> !op_counterparty_is_pot(#[trigger] ops[i]),
    ensures
        bal(apply_ops(m, ops), pot_account_id()) as int == bal(m, pot_account_id()) + donated(
            m,
            ops,
        ) + absorbed(m, ops) - allocated(m, ops),
    decreases ops.len(),
{
    if ops.len() == 0 {
    } else {
        lemma_step_pot_balance(m, ops[0]);
        assert(forall|i: int|
            0 <= i < ops.drop_first().len() ==> !op_counterparty_is_pot(
                #[trigger] ops.drop_first()[i],
            ));
        lemma_pot_conservation(step_map(m, ops[0]), ops.drop_first());
    }
}

/// Authorization: an allocation invoked with a non-privileged origin always
/// fails with `BadOrigin` and changes no balance.
pub proof fn lemma_allocate_requires_privilege(
    m: Map<u64, u64>,
    origin: Origin,
    dest: u64,
    amount: u64,
)
    requires
        origin != Origin::Root,
    ensures
        !step_ok(m, Op::Allocate(origin, dest, amount)),
        step_map(m, Op::Allocate(origin, dest, amount)) == m,
        step_err(m, Op::Allocate(origin, dest, amount)) == Error::BadOrigin,
{
}

/// Insufficiency, donor side: a donation of more than the donor's balance
/// always fails with `InsufficientFunds` and changes no balance.
pub proof fn lemma_donate_insufficient(m: Map<u64, u64>, donor: u64, amount: u64)
    requires
        amount > bal(m, donor),
    ensures
        !step_ok(m, Op::Donate(Origin::Signed(donor), amount)),
        step_map(m, Op::Donate(Origin::Signed(donor), amount)) == m,
        step_err(m, Op::Donate(Origin::Signed(donor), amount)) == Error::InsufficientFunds,
{
}

/// Insufficiency, pot side: an allocation of more than the pot's balance
/// always fails and changes no balance; under a privileged origin the failure
/// is `InsufficientPotFunds`.
pub proof fn lemma_allocate_insufficient(m: Map<u64, u64>, origin: Origin, dest: u64, amount: u64)
    requires
        amount > bal(m, pot_account_id()),
    ensures
        !step_ok(m, Op::Allocate(origin, dest, amount)),
        step_map(m, Op::Allocate(origin, dest, amount)) == m,
        origin == Origin::Root ==> step_err(m, Op::Allocate(origin, dest, amount))
            == Error::InsufficientPotFunds,
{
}

/// Event correctness: the event a successful operation emits reports exactly
/// the pot's balance after the mutation.
pub proof fn lemma_event_reports_pot_balance(m: Map<u64, u64>, op: Op)
    requires
        step_ok(m, op),
    ensures
        event_pot_balance(step_event(m, op)) == bal(step_map(m, op), pot_account_id()),
{
}

} // verus!
