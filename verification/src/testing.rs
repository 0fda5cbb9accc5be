//! Support for driving the pot against a mock ledger: the fixed
//! configuration such a runtime runs under, and the genesis build step that
//! turns its initial balances into a ledger.

use crate::ledger::Ledger;
use vstd::prelude::*;

verus! {

/// The balances a genesis list describes, applied in order: a later entry for
/// the same account overwrites an earlier one.
pub open spec fn genesis_map(balances: Seq<(u64, u64)>) -> Map<u64, u64>
    decreases balances.len(),
{
    if balances.len() == 0 {
        Map::<u64, u64>::empty()
    } else {
        genesis_map(balances.drop_last()).insert(balances.last().0, balances.last().1)
    }
}

/// The configuration of a mock runtime: the ledger's minimum viable balance.
#[derive(Clone, Copy, Debug, PartialEq, Eq, Structural)]
pub struct TestRuntime {
    /// The minimum balance an account must retain to stay in existence.
    pub existential_deposit: u64,
}

impl TestRuntime {
    /// Build the ledger this configuration describes, holding exactly the
    /// given genesis balances under the configured minimum.
    pub fn build(&self, balances: &Vec<(u64, u64)>) -> (r: Ledger)
        ensures
            r@ == genesis_map(balances@),
            r.min_spec() == self.existential_deposit,
    {
        let mut ledger = Ledger::new(self.existential_deposit);
        let mut i: usize = 0;
        while i < balances.len()
            invariant
                i <= balances.len(),
                ledger@ == genesis_map(balances@.take(i as int)),
                ledger.min_spec() == self.existential_deposit,
            decreases balances.len() - i,
        {
            let (who, amount) = balances[i];
            ledger.make_free_balance_be(who, amount);
            proof {
                assert(balances@.take(i as int + 1).drop_last() =~= balances@.take(i as int));
                assert(balances@.take(i as int + 1).last() == balances@[i as int]);
            }
            i = i + 1;
        }
        proof {
            assert(balances@.take(balances@.len() as int) =~= balances@);
        }
        ledger
    }
}

} // verus!
