//! Position changes, as a position authority reports them.

use crate::amount::Amount;
use crate::identifiers::ClientOrderFillId;
use crate::identifiers::TradePlaceAccount;
use crate::time::DateTime;
use vstd::prelude::*;

verus! {

/// The fill at which the position of a trading place last went through flat,
/// and the portion of that fill that belongs to the position held since.
#[derive(Debug, PartialEq, Eq)]
pub struct PositionChange {
    pub client_order_fill_id: ClientOrderFillId,
    pub portion: Amount,
}

impl Clone for PositionChange {
    fn clone(&self) -> (r: Self)
        ensures
            r == *self,
    {
        PositionChange {
            client_order_fill_id: self.client_order_fill_id.clone(),
            portion: self.portion,
        }
    }
}

impl PositionChange {
    /// The position change at the given fill, with the given portion.
    pub fn new(client_order_fill_id: ClientOrderFillId, portion: Amount) -> (r: Self)
        ensures
            r.client_order_fill_id == client_order_fill_id,
            r.portion == portion,
    {
        PositionChange { client_order_fill_id, portion }
    }
}

/// Knows the positions of the trading places. The selector of balance changes
/// asks it where the window of a trading place has to begin; nothing is
/// assumed of its answers.
pub trait PositionAuthority {
    /// The last position change of the trading place before the given
    /// instant, if there is one.
    fn get_last_position_change_before_period(
        &self,
        trade_place: &TradePlaceAccount,
        start_of_period: DateTime,
    ) -> Option<PositionChange>;
}

} // verus!
