//! Takers of realized balance changes.

use crate::profit_loss_balance_change::ProfitLossBalanceChange;
use vstd::prelude::*;

verus! {

/// Keeps account of the balance changes that the service publishes. Every
/// accumulator of the service is handed every change.
pub trait BalanceChangeAccumulator {
    /// Takes one balance change into account.
    fn add_balance_change(&mut self, balance_change: &ProfitLossBalanceChange);
}

} // verus!
