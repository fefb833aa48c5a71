//! From a fill to the balance changes that it makes.
//!
//! A fill changes the balance of the base and of the quote currency of its
//! pair. A buy raises the base balance by the base volume of the fill and
//! lowers the quote balance by its quote volume; a sell does the opposite.
//! The commission lowers the balance of the currency in which it is charged.

use crate::amount::Amount;
use crate::amount::DecimalValue;
use crate::configuration_descriptor::ConfigurationDescriptor;
use crate::identifiers::CurrencyCode;
use crate::identifiers::CurrencyPair;
use crate::identifiers::ExchangeAccountId;
use crate::identifiers::ExchangeId;
use crate::orders::OrderFill;
use crate::orders::OrderSide;
use crate::orders::OrderSnapshot;
use crate::symbol::CurrencyPairToSymbolConverter;
use crate::symbol::Symbol;
use vstd::prelude::*;

verus! {

/// Why the balance changes of a fill could not be calculated.
#[derive(Clone, Copy, Debug, PartialEq, Eq)]
pub enum CalculatorError {
    /// The amount of the fill is in a currency that is neither the base nor
    /// the quote currency of the pair.
    AmountCurrencyNotInPair,
    /// A volume or a balance change has no representation as a decimal.
    Unrepresentable,
}

/// The change of the balance of one currency.
#[derive(Debug, PartialEq, Eq)]
pub struct CurrencyChange {
    pub currency_code: CurrencyCode,
    pub balance_change: Amount,
}

impl Clone for CurrencyChange {
    fn clone(&self) -> (r: Self)
        ensures
            r == *self,
    {
        CurrencyChange {
            currency_code: self.currency_code.clone(),
            balance_change: self.balance_change,
        }
    }
}

/// The volume of the fill in the base currency: its amount where that is in
/// the base currency, else its amount divided by its price.
pub open spec fn base_volume(symbol: Symbol, fill: OrderFill) -> Option<Amount> {
    if fill.amount_currency_code@ == symbol.base()@ {
        Some(fill.amount)
    } else {
        fill.amount.divided_by(fill.price)
    }
}

/// The volume of the fill in the quote currency: its amount where that is in
/// the quote currency, else its amount multiplied by its price.
pub open spec fn quote_volume(symbol: Symbol, fill: OrderFill) -> Option<Amount> {
    if fill.amount_currency_code@ == symbol.quote()@ {
        Some(fill.amount)
    } else {
        fill.amount.times(fill.price)
    }
}

/// The base volume with the sign of the side: bought, the base balance rises.
pub open spec fn base_gain(side: OrderSide, volume: Amount) -> Amount {
    match side {
        OrderSide::Buy => volume,
        OrderSide::Sell => volume.opposite(),
    }
}

/// The quote volume with the sign of the side: bought, the quote balance
/// falls.
pub open spec fn quote_gain(side: OrderSide, volume: Amount) -> Amount {
    match side {
        OrderSide::Buy => volume.opposite(),
        OrderSide::Sell => volume,
    }
}

/// Whether the commission of the fill lowers the balance of `currency`: it is
/// charged in that currency and is not zero.
pub open spec fn charged_in(fill: OrderFill, currency: CurrencyCode) -> bool {
    fill.commission_currency_code@ == currency@ && !fill.commission_amount@.is_zero()
}

/// The gain of `currency` less the commission, where the commission is
/// charged in that currency. A commission of zero leaves the gain as it is.
pub open spec fn less_commission(gain: Amount, fill: OrderFill, currency: CurrencyCode) -> Option<
    Amount,
> {
    if charged_in(fill, currency) {
        gain.minus(fill.commission_amount)
    } else {
        Some(gain)
    }
}

/// The change of the base balance.
pub open spec fn base_delta(symbol: Symbol, side: OrderSide, fill: OrderFill) -> Option<Amount> {
    match base_volume(symbol, fill) {
        Some(volume) => less_commission(base_gain(side, volume), fill, symbol.base()),
        None => None,
    }
}

/// The change of the quote balance.
pub open spec fn quote_delta(symbol: Symbol, side: OrderSide, fill: OrderFill) -> Option<Amount> {
    match quote_volume(symbol, fill) {
        Some(volume) => less_commission(quote_gain(side, volume), fill, symbol.quote()),
        None => None,
    }
}

/// Whether the amount of the fill is in one of the two currencies of the
/// pair.
pub open spec fn amount_in_pair(symbol: Symbol, fill: OrderFill) -> bool {
    fill.amount_currency_code@ == symbol.base()@ || fill.amount_currency_code@
        == symbol.quote()@
}

/// Whether the commission of the fill is charged in a currency outside the
/// pair.
pub open spec fn commission_apart(symbol: Symbol, fill: OrderFill) -> bool {
    fill.commission_currency_code@ != symbol.base()@ && fill.commission_currency_code@
        != symbol.quote()@
}

/// The balance changes that come of the changes of the base and of the quote
/// balance: that of the base currency, that of the quote currency and, where
/// the commission is charged in a third currency, that of the commission
/// currency, which falls by the commission.
pub open spec fn changes_of_deltas(
    symbol: Symbol,
    fill: OrderFill,
    base_delta: Amount,
    quote_delta: Amount,
) -> Seq<CurrencyChange> {
    let pair = seq![
        CurrencyChange { currency_code: symbol.base(), balance_change: base_delta },
        CurrencyChange { currency_code: symbol.quote(), balance_change: quote_delta },
    ];
    if commission_apart(symbol, fill) {
        pair.push(
            CurrencyChange {
                currency_code: fill.commission_currency_code,
                balance_change: fill.commission_amount.opposite(),
            },
        )
    } else {
        pair
    }
}

/// The balance changes of a fill of an order of the given side.
pub open spec fn balance_changes_of(symbol: Symbol, side: OrderSide, fill: OrderFill) -> Result<
    Seq<CurrencyChange>,
    CalculatorError,
> {
    if !amount_in_pair(symbol, fill) {
        Err(CalculatorError::AmountCurrencyNotInPair)
    } else {
        match (base_delta(symbol, side, fill), quote_delta(symbol, side, fill)) {
            (Some(base), Some(quote)) => Ok(changes_of_deltas(symbol, fill, base, quote)),
            _ => Err(CalculatorError::Unrepresentable),
        }
    }
}

/// The volumes of a fill with the signs of the side: bought, the base
/// balance rises by the base volume and the quote balance falls by the quote
/// volume; sold, the base balance falls and the quote balance rises.
pub fn gains(side: OrderSide, base_volume: Amount, quote_volume: Amount) -> (r: (Amount, Amount))
    ensures
        r.0 == base_gain(side, base_volume),
        r.1 == quote_gain(side, quote_volume),
        r.0@ == match side {
            OrderSide::Buy => base_volume@,
            OrderSide::Sell => base_volume@.negated(),
        },
        r.1@ == match side {
            OrderSide::Buy => quote_volume@.negated(),
            OrderSide::Sell => quote_volume@,
        },
{
    match side {
        OrderSide::Buy => (base_volume, quote_volume.negated()),
        OrderSide::Sell => (base_volume.negated(), quote_volume),
    }
}

/// The gain of `currency` less the commission of the fill, where the
/// commission is charged in that currency and is not zero; else the gain as
/// it is. `None` where the difference has no representation.
pub fn charge_commission(gain: Amount, fill: &OrderFill, currency: &CurrencyCode) -> (r: Option<
    Amount,
>)
    ensures
        r == less_commission(gain, *fill, *currency),
        !charged_in(*fill, *currency) ==> r == Some(gain),
{
    if fill.commission_currency_code.equals(currency) && !fill.commission_amount.is_zero() {
        gain.checked_sub(&fill.commission_amount)
    } else {
        Some(gain)
    }
}

/// The balance changes that come of the changes of the base and of the quote
/// balance.
pub fn collect_changes(
    symbol: &Symbol,
    fill: &OrderFill,
    base_delta: Amount,
    quote_delta: Amount,
) -> (r: Vec<CurrencyChange>)
    ensures
        r@ == changes_of_deltas(*symbol, *fill, base_delta, quote_delta),
        r@.len() == if commission_apart(*symbol, *fill) {
            3nat
        } else {
            2nat
        },
        r@[0].currency_code == symbol.base(),
        r@[0].balance_change == base_delta,
        r@[1].currency_code == symbol.quote(),
        r@[1].balance_change == quote_delta,
        commission_apart(*symbol, *fill) ==> r@[2].currency_code == fill.commission_currency_code
            && r@[2].balance_change@ == fill.commission_amount@.negated(),
{
    let base = symbol.base_currency_code();
    let quote = symbol.quote_currency_code();
    let mut changes: Vec<CurrencyChange> = Vec::new();
    changes.push(CurrencyChange { currency_code: base.clone(), balance_change: base_delta });
    changes.push(CurrencyChange { currency_code: quote.clone(), balance_change: quote_delta });
    if !fill.commission_currency_code.equals(base) && !fill.commission_currency_code.equals(
        quote,
    ) {
        changes.push(
            CurrencyChange {
                currency_code: fill.commission_currency_code.clone(),
                balance_change: fill.commission_amount.negated(),
            },
        );
    }
    assert(changes@ =~= changes_of_deltas(*symbol, *fill, base_delta, quote_delta));
    changes
}

/// The balance changes that a fill of an order of the given side makes, for
/// the symbol of the order's pair.
pub fn calculate_balance_changes(symbol: &Symbol, side: OrderSide, fill: &OrderFill) -> (r: Result<
    Vec<CurrencyChange>,
    CalculatorError,
>)
    ensures
        match balance_changes_of(*symbol, side, *fill) {
            Ok(changes) => r matches Ok(calculated) && calculated@ == changes,
            Err(error) => r == Err::<Vec<CurrencyChange>, CalculatorError>(error),
        },
{
    let base = symbol.base_currency_code();
    let quote = symbol.quote_currency_code();
    let amount_in_base = fill.amount_currency_code.equals(base);
    let amount_in_quote = fill.amount_currency_code.equals(quote);
    if !amount_in_base && !amount_in_quote {
        return Err(CalculatorError::AmountCurrencyNotInPair);
    }
    let base_volume = if amount_in_base {
        Some(fill.amount)
    } else {
        fill.amount.checked_div(&fill.price)
    };
    let quote_volume = if amount_in_quote {
        Some(fill.amount)
    } else {
        fill.amount.checked_mul(&fill.price)
    };
    let (base_gain, quote_gain) = match (base_volume, quote_volume) {
        (Some(base_volume), Some(quote_volume)) => gains(side, base_volume, quote_volume),
        _ => {
            return Err(CalculatorError::Unrepresentable);
        },
    };
    match (charge_commission(base_gain, fill, base), charge_commission(quote_gain, fill, quote)) {
        (Some(base_delta), Some(quote_delta)) => Ok(
            collect_changes(symbol, fill, base_delta, quote_delta),
        ),
        _ => Err(CalculatorError::Unrepresentable),
    }
}

/// The balance changes of one fill, with the order and the configuration
/// that they belong to.
#[derive(Debug, PartialEq, Eq)]
pub struct BalanceChangesCalculatorResult {
    pub configuration_descriptor: ConfigurationDescriptor,
    pub exchange_account_id: ExchangeAccountId,
    pub currency_pair: CurrencyPair,
    pub exchange_id: ExchangeId,
    pub balance_changes: Vec<CurrencyChange>,
}

impl BalanceChangesCalculatorResult {
    /// The valuation of a balance change that is known without asking: a
    /// change in the valuation currency itself is worth zero.
    pub open spec fn known_usd_change(
        currency_code: CurrencyCode,
        valuation_currency_code: CurrencyCode,
    ) -> Option<Amount> {
        if currency_code@ == valuation_currency_code@ {
            Some(Amount::of(DecimalValue { mantissa: 0, scale: 0 }))
        } else {
            None
        }
    }

    /// The valuation of a balance change in `currency_code` where it is known
    /// without asking the valuation capability: zero for the valuation
    /// currency itself. For every other currency the capability has to be
    /// asked.
    pub fn calculate_usd_change(
        &self,
        currency_code: &CurrencyCode,
        valuation_currency_code: &CurrencyCode,
    ) -> (r: Option<Amount>)
        ensures
            r == Self::known_usd_change(*currency_code, *valuation_currency_code),
    {
        if currency_code.equals(valuation_currency_code) {
            Some(Amount::zero())
        } else {
            None
        }
    }

    /// The balance changes, one for each currency.
    pub fn get_changes(&self) -> (r: &Vec<CurrencyChange>)
        ensures
            *r == self.balance_changes,
    {
        &self.balance_changes
    }
}

/// Calculates the balance changes of fills from the symbols of their pairs.
pub struct BalanceChangesCalculator {
    currency_pair_to_symbol_converter: CurrencyPairToSymbolConverter,
}

impl BalanceChangesCalculator {
    /// The symbols that the calculator goes by.
    pub closed spec fn symbols(self) -> CurrencyPairToSymbolConverter {
        self.currency_pair_to_symbol_converter
    }

    /// The symbol of the order's pair, if it is known.
    pub open spec fn symbol_of(self, order: OrderSnapshot) -> Option<Symbol> {
        self.symbols().symbol_of(order.exchange_account_id@, order.currency_pair@)
    }

    /// Whether `result` is what the calculation for the given fill of the
    /// given order gives.
    pub open spec fn calculated(
        self,
        configuration_descriptor: ConfigurationDescriptor,
        order: OrderSnapshot,
        fill: OrderFill,
        result: Result<BalanceChangesCalculatorResult, CalculatorError>,
    ) -> bool {
        match balance_changes_of(self.symbol_of(order)->0, order.side, fill) {
            Ok(changes) => result matches Ok(calculated) && {
                &&& calculated.configuration_descriptor == configuration_descriptor
                &&& calculated.exchange_account_id == order.exchange_account_id
                &&& calculated.currency_pair == order.currency_pair
                &&& calculated.exchange_id == order.exchange_account_id.exchange_id
                &&& calculated.balance_changes@ == changes
            },
            Err(error) => result == Err::<BalanceChangesCalculatorResult, CalculatorError>(error),
        }
    }

    /// The calculator that goes by the given symbols.
    pub fn new(currency_pair_to_symbol_converter: CurrencyPairToSymbolConverter) -> (r: Self)
        ensures
            r.symbols() == currency_pair_to_symbol_converter,
    {
        BalanceChangesCalculator { currency_pair_to_symbol_converter }
    }

    /// Whether the symbol of the order's pair is known.
    pub fn has_symbol(&self, order: &OrderSnapshot) -> (r: bool)
        ensures
            r == self.symbol_of(*order) is Some,
    {
        self.currency_pair_to_symbol_converter.get_symbol(
            &order.exchange_account_id,
            &order.currency_pair,
        ).is_some()
    }

    /// The balance changes that the given fill of the given order makes. The
    /// symbol of the order's pair has to be known.
    pub fn get_balance_changes(
        &self,
        configuration_descriptor: ConfigurationDescriptor,
        order: &OrderSnapshot,
        order_fill: &OrderFill,
    ) -> (r: Result<BalanceChangesCalculatorResult, CalculatorError>)
        requires
            self.symbol_of(*order) is Some,
        ensures
            self.calculated(configuration_descriptor, *order, *order_fill, r),
    {
        let symbol = self.currency_pair_to_symbol_converter.get_symbol(
            &order.exchange_account_id,
            &order.currency_pair,
        ).unwrap();
        match calculate_balance_changes(symbol, order.side, order_fill) {
            Ok(balance_changes) => Ok(
                BalanceChangesCalculatorResult {
                    configuration_descriptor,
                    exchange_account_id: order.exchange_account_id.clone(),
                    currency_pair: order.currency_pair.clone(),
                    exchange_id: order.exchange_account_id.exchange_id.clone(),
                    balance_changes,
                },
            ),
            Err(error) => Err(error),
        }
    }
}

/// A fill with its amount in the base currency and its commission in the
/// quote currency changes the base balance by exactly its amount, up for a
/// buy and down for a sell, and the quote balance by its amount times its
/// price, down for a buy and up for a sell, less the commission.
pub proof fn lemma_amount_in_base_commission_in_quote(
    symbol: Symbol,
    side: OrderSide,
    fill: OrderFill,
)
    requires
        symbol.valid(),
        fill.amount.valid(),
        fill.amount_currency_code@ == symbol.base()@,
        fill.commission_currency_code@ == symbol.quote()@,
    ensures
        base_delta(symbol, side, fill) == Some(base_gain(side, fill.amount)),
        side == OrderSide::Buy ==> base_gain(side, fill.amount) == fill.amount,
        side == OrderSide::Sell ==> base_gain(side, fill.amount)@.mantissa
            == -fill.amount@.mantissa && base_gain(side, fill.amount)@.scale
            == fill.amount@.scale,
        quote_delta(symbol, side, fill) == match fill.amount.times(fill.price) {
            Some(volume) => if fill.commission_amount@.is_zero() {
                Some(quote_gain(side, volume))
            } else {
                quote_gain(side, volume).minus(fill.commission_amount)
            },
            None => None,
        },
        fill.amount.times(fill.price) matches Some(volume) ==> {
            &&& side == OrderSide::Sell ==> quote_gain(side, volume) == volume
            &&& side == OrderSide::Buy ==> quote_gain(side, volume)@.mantissa
                == -volume@.mantissa && quote_gain(side, volume)@.scale == volume@.scale
        },
{
    fill.amount.lemma_opposite();
    fill.amount.lemma_results_valid(fill.price);
    if fill.amount.times(fill.price) is Some {
        fill.amount.times(fill.price)->0.lemma_opposite();
    }
}

/// A buy and a sell of the same amount at the same price, both without
/// commission, change each balance by opposite amounts: the two changes of a
/// currency have the same scale, and their mantissas add up to zero.
pub proof fn lemma_opposite_fills_cancel(symbol: Symbol, buy: OrderFill, sell: OrderFill)
    requires
        symbol.valid(),
        buy.amount.valid(),
        amount_in_pair(symbol, buy),
        sell.amount == buy.amount,
        sell.price == buy.price,
        sell.amount_currency_code@ == buy.amount_currency_code@,
        buy.commission_amount@.is_zero(),
        sell.commission_amount@.is_zero(),
        base_delta(symbol, OrderSide::Buy, buy) is Some,
        quote_delta(symbol, OrderSide::Buy, buy) is Some,
    ensures
        base_delta(symbol, OrderSide::Sell, sell) == Some(
            base_delta(symbol, OrderSide::Buy, buy)->0.opposite(),
        ),
        quote_delta(symbol, OrderSide::Buy, buy) == Some(
            quote_delta(symbol, OrderSide::Sell, sell)->0.opposite(),
        ),
        base_delta(symbol, OrderSide::Buy, buy)->0@.mantissa + base_delta(
            symbol,
            OrderSide::Sell,
            sell,
        )->0@.mantissa == 0,
        base_delta(symbol, OrderSide::Buy, buy)->0@.scale == base_delta(
            symbol,
            OrderSide::Sell,
            sell,
        )->0@.scale,
        quote_delta(symbol, OrderSide::Buy, buy)->0@.mantissa + quote_delta(
            symbol,
            OrderSide::Sell,
            sell,
        )->0@.mantissa == 0,
        quote_delta(symbol, OrderSide::Buy, buy)->0@.scale == quote_delta(
            symbol,
            OrderSide::Sell,
            sell,
        )->0@.scale,
{
    buy.amount.lemma_results_valid(buy.price);
    base_volume(symbol, buy)->0.lemma_opposite();
    quote_volume(symbol, buy)->0.lemma_opposite();
}

/// The commission lowers the balance of the currency in which it is charged
/// and leaves the other as it is: of two fills that differ in their
/// commission alone, one charged in the base and one in the quote currency,
/// both have the same volumes, the first changes the quote balance and the
/// second the base balance by the whole volume, and each lowers the other
/// balance by its commission.
pub proof fn lemma_commission_shifts(
    symbol: Symbol,
    side: OrderSide,
    in_base: OrderFill,
    in_quote: OrderFill,
)
    requires
        symbol.valid(),
        in_quote.amount == in_base.amount,
        in_quote.price == in_base.price,
        in_quote.amount_currency_code@ == in_base.amount_currency_code@,
        in_base.commission_currency_code@ == symbol.base()@,
        in_quote.commission_currency_code@ == symbol.quote()@,
    ensures
        base_volume(symbol, in_base) == base_volume(symbol, in_quote),
        quote_volume(symbol, in_base) == quote_volume(symbol, in_quote),
        base_volume(symbol, in_base) matches Some(volume) ==> {
            &&& base_delta(symbol, side, in_quote) == Some(base_gain(side, volume))
            &&& base_delta(symbol, side, in_base) == if in_base.commission_amount@.is_zero() {
                Some(base_gain(side, volume))
            } else {
                base_gain(side, volume).minus(in_base.commission_amount)
            }
        },
        quote_volume(symbol, in_base) matches Some(volume) ==> {
            &&& quote_delta(symbol, side, in_base) == Some(quote_gain(side, volume))
            &&& quote_delta(symbol, side, in_quote) == if in_quote.commission_amount@.is_zero() {
                Some(quote_gain(side, volume))
            } else {
                quote_gain(side, volume).minus(in_quote.commission_amount)
            }
        },
{
}

/// The balance changes of a fill name each currency once: the base currency
/// first, the quote currency second and, where the commission is charged in
/// a third currency, that currency last.
pub proof fn lemma_one_change_per_currency(symbol: Symbol, side: OrderSide, fill: OrderFill)
    requires
        symbol.valid(),
        balance_changes_of(symbol, side, fill) is Ok,
    ensures
        ({
            let changes = balance_changes_of(symbol, side, fill)->Ok_0;
            &&& changes.len() == if commission_apart(symbol, fill) {
                3nat
            } else {
                2nat
            }
            &&& changes[0].currency_code == symbol.base()
            &&& Some(changes[0].balance_change) == base_delta(symbol, side, fill)
            &&& changes[1].currency_code == symbol.quote()
            &&& Some(changes[1].balance_change) == quote_delta(symbol, side, fill)
            &&& commission_apart(symbol, fill) ==> changes[2].currency_code
                == fill.commission_currency_code && changes[2].balance_change
                == fill.commission_amount.opposite()
            &&& forall|i: int, j: int|
                0 <= i < j < changes.len() ==> (#[trigger] changes[i]).currency_code@ != (
                #[trigger] changes[j]).currency_code@
        }),
{
}

/// The value of a decimal counted in units of `10^-scale`, for a scale that
/// is not smaller than its own.
pub open spec fn units(value: DecimalValue, scale: int) -> int {
    value.mantissa * vstd::arithmetic::power::pow(10, (scale - value.scale) as nat)
}

/// Whether `difference` is `a - b`, with nothing rounded away.
pub open spec fn is_difference(
    a: DecimalValue,
    b: DecimalValue,
    difference: DecimalValue,
    scale: int,
) -> bool {
    units(difference, scale) == units(a, scale) - units(b, scale)
}

/// Whether `product` is `a * b`, with nothing rounded away.
pub open spec fn is_product(
    a: DecimalValue,
    b: DecimalValue,
    product: DecimalValue,
    scale: int,
) -> bool {
    units(product, scale) * vstd::arithmetic::power::pow(10, scale as nat) == units(a, scale)
        * units(b, scale)
}

/// Whether `worth` is what `amount` is worth at the rate of `rate` to
/// `denominator`.
pub open spec fn is_worth(
    worth: DecimalValue,
    amount: DecimalValue,
    rate: int,
    denominator: int,
    scale: int,
) -> bool {
    units(worth, scale) * denominator == rate * units(amount, scale)
}

/// The valuation of the balance changes of a fill does not depend on the
/// currency in which the commission is charged. Of two fills that differ in
/// their commission alone, one charged in the base currency and one charged
/// the same commission times the price in the quote currency, the balance
/// changes are worth the same in sum, where
/// - the valuation is linear, a rate for each currency, and values one unit
///   of the base currency as the price in units of the quote currency, and
/// - the decimal arithmetic rounded nothing away in the commission of the
///   second fill and in the two balance changes that a commission lowers.
pub proof fn lemma_commission_valued_alike(
    symbol: Symbol,
    side: OrderSide,
    in_base: OrderFill,
    in_quote: OrderFill,
    scale: int,
    base_rate: int,
    quote_rate: int,
    denominator: int,
    base_worth_in_base: Amount,
    quote_worth_in_base: Amount,
    base_worth_in_quote: Amount,
    quote_worth_in_quote: Amount,
)
    requires
        symbol.valid(),
        in_quote.amount == in_base.amount,
        in_quote.price == in_base.price,
        in_quote.amount_currency_code@ == in_base.amount_currency_code@,
        in_base.commission_currency_code@ == symbol.base()@,
        in_quote.commission_currency_code@ == symbol.quote()@,
        base_delta(symbol, side, in_base) is Some,
        quote_delta(symbol, side, in_base) is Some,
        base_delta(symbol, side, in_quote) is Some,
        quote_delta(symbol, side, in_quote) is Some,
        0 <= scale,
        0 < denominator,
        is_product(
            in_base.commission_amount@,
            in_base.price@,
            in_quote.commission_amount@,
            scale,
        ),
        is_difference(
            base_delta(symbol, side, in_quote)->0@,
            in_base.commission_amount@,
            base_delta(symbol, side, in_base)->0@,
            scale,
        ),
        is_difference(
            quote_delta(symbol, side, in_base)->0@,
            in_quote.commission_amount@,
            quote_delta(symbol, side, in_quote)->0@,
            scale,
        ),
        base_rate * vstd::arithmetic::power::pow(10, scale as nat) == units(in_base.price@, scale)
            * quote_rate,
        is_worth(
            base_worth_in_base@,
            base_delta(symbol, side, in_base)->0@,
            base_rate,
            denominator,
            scale,
        ),
        is_worth(
            quote_worth_in_base@,
            quote_delta(symbol, side, in_base)->0@,
            quote_rate,
            denominator,
            scale,
        ),
        is_worth(
            base_worth_in_quote@,
            base_delta(symbol, side, in_quote)->0@,
            base_rate,
            denominator,
            scale,
        ),
        is_worth(
            quote_worth_in_quote@,
            quote_delta(symbol, side, in_quote)->0@,
            quote_rate,
            denominator,
            scale,
        ),
    ensures
        units(base_worth_in_base@, scale) + units(quote_worth_in_base@, scale) == units(
            base_worth_in_quote@,
            scale,
        ) + units(quote_worth_in_quote@, scale),
{
    let ten = vstd::arithmetic::power::pow(10, scale as nat);
    vstd::arithmetic::power::lemma_pow_positive(10, scale as nat);
    let price = units(in_base.price@, scale);
    let charged_base = units(in_base.commission_amount@, scale);
    let charged_quote = units(in_quote.commission_amount@, scale);
    let base_1 = units(base_delta(symbol, side, in_base)->0@, scale);
    let quote_1 = units(quote_delta(symbol, side, in_base)->0@, scale);
    let base_2 = units(base_delta(symbol, side, in_quote)->0@, scale);
    let quote_2 = units(quote_delta(symbol, side, in_quote)->0@, scale);
    let worth_1 = units(base_worth_in_base@, scale) + units(quote_worth_in_base@, scale);
    let worth_2 = units(base_worth_in_quote@, scale) + units(quote_worth_in_quote@, scale);
    assert(worth_1 * denominator == base_rate * base_1 + quote_rate * quote_1) by (nonlinear_arith)
        requires
            units(base_worth_in_base@, scale) * denominator == base_rate * base_1,
            units(quote_worth_in_base@, scale) * denominator == quote_rate * quote_1,
            worth_1 == units(base_worth_in_base@, scale) + units(quote_worth_in_base@, scale),
    ;
    assert(worth_2 * denominator == base_rate * base_2 + quote_rate * quote_2) by (nonlinear_arith)
        requires
            units(base_worth_in_quote@, scale) * denominator == base_rate * base_2,
            units(quote_worth_in_quote@, scale) * denominator == quote_rate * quote_2,
            worth_2 == units(base_worth_in_quote@, scale) + units(quote_worth_in_quote@, scale),
    ;
    assert((worth_1 - worth_2) * denominator == quote_rate * charged_quote - base_rate
        * charged_base) by (nonlinear_arith)
        requires
            worth_1 * denominator == base_rate * base_1 + quote_rate * quote_1,
            worth_2 * denominator == base_rate * base_2 + quote_rate * quote_2,
            base_1 == base_2 - charged_base,
            quote_2 == quote_1 - charged_quote,
    ;
    assert((quote_rate * charged_quote - base_rate * charged_base) * ten == 0)
        by (nonlinear_arith)
        requires
            charged_quote * ten == charged_base * price,
            base_rate * ten == price * quote_rate,
    ;
    assert(worth_1 == worth_2) by (nonlinear_arith)
        requires
            (worth_1 - worth_2) * denominator == quote_rate * charged_quote - base_rate
                * charged_base,
            (quote_rate * charged_quote - base_rate * charged_base) * ten == 0,
            0 < ten,
            0 < denominator,
    ;
}

} // verus!
