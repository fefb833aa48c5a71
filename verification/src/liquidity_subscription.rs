//! Subscription of a client to the liquidity of one market.

use vstd::prelude::*;

verus! {

/// Asks for the liquidity of a currency pair on an exchange.
#[derive(Debug, PartialEq, Eq, Hash)]
pub struct LiquiditySubscription {
    pub exchange_id: String,
    pub currency_pair: String,
}

impl View for LiquiditySubscription {
    type V = (Seq<char>, Seq<char>);

    open spec fn view(&self) -> (Seq<char>, Seq<char>) {
        (self.exchange_id@, self.currency_pair@)
    }
}

impl Clone for LiquiditySubscription {
    fn clone(&self) -> (r: Self)
        ensures
            r == *self,
    {
        LiquiditySubscription {
            exchange_id: self.exchange_id.clone(),
            currency_pair: self.currency_pair.clone(),
        }
    }
}

impl LiquiditySubscription {
    /// Whether both subscriptions ask for the same market.
    pub fn equals(&self, other: &Self) -> (r: bool)
        ensures
            r == (self@ == other@),
    {
        self.exchange_id == other.exchange_id && self.currency_pair == other.currency_pair
    }
}

} // verus!
