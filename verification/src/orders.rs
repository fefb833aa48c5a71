//! What the accounting reads of an order and of one of its fills.

use crate::amount::Amount;
use crate::identifiers::ClientOrderFillId;
use crate::identifiers::CurrencyCode;
use crate::identifiers::CurrencyPair;
use crate::identifiers::ExchangeAccountId;
use vstd::prelude::*;

verus! {

/// Side of an order: to buy the base currency or to sell it.
#[derive(Clone, Copy, Debug, PartialEq, Eq, Hash)]
pub enum OrderSide {
    Buy,
    Sell,
}

/// An order, as far as the accounting reads it.
#[derive(Debug, PartialEq, Eq)]
pub struct OrderSnapshot {
    pub exchange_account_id: ExchangeAccountId,
    pub currency_pair: CurrencyPair,
    pub side: OrderSide,
}

impl Clone for OrderSnapshot {
    fn clone(&self) -> (r: Self)
        ensures
            r == *self,
    {
        OrderSnapshot {
            exchange_account_id: self.exchange_account_id.clone(),
            currency_pair: self.currency_pair.clone(),
            side: self.side,
        }
    }
}

impl OrderSnapshot {
    /// The order of the given side for the given pair on the given account.
    pub fn new(
        exchange_account_id: ExchangeAccountId,
        currency_pair: CurrencyPair,
        side: OrderSide,
    ) -> (r: Self)
        ensures
            r == (OrderSnapshot { exchange_account_id, currency_pair, side }),
    {
        OrderSnapshot { exchange_account_id, currency_pair, side }
    }
}

/// One fill of an order: `amount` of `amount_currency_code` was traded at
/// `price`, the price of one unit of the base currency in the quote currency,
/// and `commission_amount` of `commission_currency_code` was charged.
#[derive(Debug, PartialEq, Eq)]
pub struct OrderFill {
    pub client_order_fill_id: Option<ClientOrderFillId>,
    pub price: Amount,
    pub amount: Amount,
    pub amount_currency_code: CurrencyCode,
    pub commission_currency_code: CurrencyCode,
    pub commission_amount: Amount,
}

impl Clone for OrderFill {
    fn clone(&self) -> (r: Self)
        ensures
            r == *self,
    {
        OrderFill {
            client_order_fill_id: match &self.client_order_fill_id {
                Some(id) => Some(id.clone()),
                None => None,
            },
            price: self.price,
            amount: self.amount,
            amount_currency_code: self.amount_currency_code.clone(),
            commission_currency_code: self.commission_currency_code.clone(),
            commission_amount: self.commission_amount,
        }
    }
}

impl OrderFill {
    /// The fill with the given content.
    pub fn new(
        client_order_fill_id: Option<ClientOrderFillId>,
        price: Amount,
        amount: Amount,
        amount_currency_code: CurrencyCode,
        commission_currency_code: CurrencyCode,
        commission_amount: Amount,
    ) -> (r: Self)
        ensures
            r == (OrderFill {
                client_order_fill_id,
                price,
                amount,
                amount_currency_code,
                commission_currency_code,
                commission_amount,
            }),
    {
        OrderFill {
            client_order_fill_id,
            price,
            amount,
            amount_currency_code,
            commission_currency_code,
            commission_amount,
        }
    }
}

} // verus!
