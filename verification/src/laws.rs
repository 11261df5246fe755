//! Laws of the machine that relate whole sequences of operations, proved over
//! the model-level transition functions that the operations' own contracts
//! are stated against.

use vstd::prelude::*;

use crate::assets::AssetModel;
use crate::machine::buy_accepted;
use crate::machine::buy_next;
use crate::machine::withdrawn;
use crate::machine::withdrawn_amount;
use crate::machine::MachineModel;
use crate::machine::INITIAL_SUPPLY;

verus! {

/// State after offering the payments in `payments`, in order, to a machine
/// starting in state `m`.
pub open spec fn run_buys(m: MachineModel, payments: Seq<AssetModel>) -> MachineModel
    decreases payments.len(),
{
    if payments.len() == 0 {
        m
    } else {
        run_buys(buy_next(m, payments[0]), payments.drop_first())
    }
}

/// Whether every purchase along the run of `payments` from `m` is accepted.
pub open spec fn all_buys_accepted(m: MachineModel, payments: Seq<AssetModel>) -> bool
    decreases payments.len(),
{
    payments.len() == 0 || {
        &&& buy_accepted(m, payments[0])
        &&& all_buys_accepted(buy_next(m, payments[0]), payments.drop_first())
    }
}

/// Conservation: over any sequence of accepted purchases, the inventory drops
/// by exactly the number of purchases, and the proceeds grow by exactly the
/// sum of the prices in force at each purchase — which, purchases leaving the
/// price unchanged, is the starting price times the number of purchases.
pub proof fn lemma_conservation(m: MachineModel, payments: Seq<AssetModel>)
    requires
        all_buys_accepted(m, payments),
    ensures
        run_buys(m, payments).price == m.price,
        run_buys(m, payments).owner_badge == m.owner_badge,
        m.inventory - run_buys(m, payments).inventory == payments.len(),
        run_buys(m, payments).proceeds == m.proceeds + payments.len() * m.price,
    decreases payments.len(),
{
    if payments.len() == 0 {
    } else {
        let next = buy_next(m, payments[0]);
        lemma_conservation(next, payments.drop_first());
        assert(next.proceeds + (payments.len() - 1) * m.price == m.proceeds + payments.len()
            * m.price) by (nonlinear_arith)
            requires
                next.proceeds == m.proceeds + m.price,
                payments.len() >= 1,
        ;
    }
}

/// Exhaustion: once a machine that started with the full initial supply has
/// accepted that many purchases, no further payment is accepted, and an
/// attempted purchase changes nothing.
pub proof fn lemma_exhaustion(m: MachineModel, payments: Seq<AssetModel>, extra: AssetModel)
    requires
        m.inventory == INITIAL_SUPPLY as int,
        payments.len() == INITIAL_SUPPLY as int,
        all_buys_accepted(m, payments),
    ensures
        !buy_accepted(run_buys(m, payments), extra),
        buy_next(run_buys(m, payments), extra) == run_buys(m, payments),
{
    lemma_conservation(m, payments);
}

/// Withdrawal idempotence: one withdrawal pays out the full proceeds and
/// leaves the balance at zero, so a second consecutive withdrawal pays out
/// nothing and leaves the state exactly as the first did.
pub proof fn lemma_withdraw_idempotent(m: MachineModel)
    ensures
        withdrawn_amount(m) == m.proceeds,
        withdrawn(m).proceeds == 0,
        withdrawn_amount(withdrawn(m)) == 0,
        withdrawn(withdrawn(m)) == withdrawn(m),
{
}

} // verus!
