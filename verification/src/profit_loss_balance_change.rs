//! One realized change of one currency's balance.

use crate::amount::Amount;
use crate::identifiers::ClientOrderFillId;
use crate::identifiers::CurrencyCode;
use crate::identifiers::CurrencyPair;
use crate::identifiers::ExchangeAccountId;
use crate::identifiers::TradePlaceAccount;
use crate::time::DateTime;
use vstd::prelude::*;

verus! {

/// The change that one fill made to the balance of one currency at one
/// trading place, in the currency itself and valued in the valuation
/// currency.
#[derive(Debug, PartialEq, Eq)]
pub struct ProfitLossBalanceChange {
    pub exchange_account_id: ExchangeAccountId,
    pub currency_pair: CurrencyPair,
    pub currency_code: CurrencyCode,
    pub client_order_fill_id: ClientOrderFillId,
    pub change_date: DateTime,
    pub balance_change: Amount,
    pub usd_balance_change: Amount,
}

impl Clone for ProfitLossBalanceChange {
    fn clone(&self) -> (r: Self)
        ensures
            r == *self,
    {
        ProfitLossBalanceChange {
            exchange_account_id: self.exchange_account_id.clone(),
            currency_pair: self.currency_pair.clone(),
            currency_code: self.currency_code.clone(),
            client_order_fill_id: self.client_order_fill_id.clone(),
            change_date: self.change_date,
            balance_change: self.balance_change,
            usd_balance_change: self.usd_balance_change,
        }
    }
}

impl ProfitLossBalanceChange {
    /// The trading place of the change.
    pub open spec fn place(self) -> TradePlaceAccount {
        TradePlaceAccount {
            exchange_account_id: self.exchange_account_id,
            currency_pair: self.currency_pair,
        }
    }

    /// The trading place of the change, as a view.
    pub open spec fn trade_place(self) -> ((Seq<char>, u8), Seq<char>) {
        (self.exchange_account_id@, self.currency_pair@)
    }

    /// The change with the two given amounts in place of its own and
    /// everything else kept.
    pub open spec fn amounting_to(
        self,
        balance_change: Amount,
        usd_balance_change: Amount,
    ) -> ProfitLossBalanceChange {
        ProfitLossBalanceChange {
            exchange_account_id: self.exchange_account_id,
            currency_pair: self.currency_pair,
            currency_code: self.currency_code,
            client_order_fill_id: self.client_order_fill_id,
            change_date: self.change_date,
            balance_change,
            usd_balance_change,
        }
    }

    /// The change with both amounts multiplied by `portion` and everything
    /// else kept; `None` where one of the two products has no representation.
    pub open spec fn portioned(self, portion: Amount) -> Option<ProfitLossBalanceChange> {
        match (self.balance_change.times(portion), self.usd_balance_change.times(portion)) {
            (Some(balance_change), Some(usd_balance_change)) => Some(
                self.amounting_to(balance_change, usd_balance_change),
            ),
            _ => None,
        }
    }

    /// The change of `balance_change` in `currency_code`, worth
    /// `usd_balance_change`, that the given fill made at the given instant.
    pub fn new(
        exchange_account_id: ExchangeAccountId,
        currency_pair: CurrencyPair,
        currency_code: CurrencyCode,
        client_order_fill_id: ClientOrderFillId,
        change_date: DateTime,
        balance_change: Amount,
        usd_balance_change: Amount,
    ) -> (r: Self)
        ensures
            r == (ProfitLossBalanceChange {
                exchange_account_id,
                currency_pair,
                currency_code,
                client_order_fill_id,
                change_date,
                balance_change,
                usd_balance_change,
            }),
    {
        ProfitLossBalanceChange {
            exchange_account_id,
            currency_pair,
            currency_code,
            client_order_fill_id,
            change_date,
            balance_change,
            usd_balance_change,
        }
    }

    /// The trading place at which the change was made.
    pub fn trade_place_account(&self) -> (r: TradePlaceAccount)
        ensures
            r == self.place(),
            r@ == self.trade_place(),
    {
        TradePlaceAccount::new(self.exchange_account_id.clone(), self.currency_pair.clone())
    }

    /// A copy with the two given amounts in place of those of the change.
    pub fn with_amounts(&self, balance_change: Amount, usd_balance_change: Amount) -> (r:
        ProfitLossBalanceChange)
        ensures
            r == self.amounting_to(balance_change, usd_balance_change),
    {
        ProfitLossBalanceChange {
            exchange_account_id: self.exchange_account_id.clone(),
            currency_pair: self.currency_pair.clone(),
            currency_code: self.currency_code.clone(),
            client_order_fill_id: self.client_order_fill_id.clone(),
            change_date: self.change_date,
            balance_change,
            usd_balance_change,
        }
    }

    /// A copy with both amounts multiplied by `portion`: the part of the
    /// change that belongs to the position held since a position change. The
    /// change itself stays as it is. `None` where a product has no
    /// representation.
    pub fn with_portion(&self, portion: Amount) -> (r: Option<ProfitLossBalanceChange>)
        ensures
            r == self.portioned(portion),
    {
        match (
            self.balance_change.checked_mul(&portion),
            self.usd_balance_change.checked_mul(&portion),
        ) {
            (Some(balance_change), Some(usd_balance_change)) => Some(
                self.with_amounts(balance_change, usd_balance_change),
            ),
            _ => None,
        }
    }
}

} // verus!
