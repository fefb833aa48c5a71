use std::cell::RefCell;
use std::str::FromStr;

use balance_changes::amount::Amount;
use balance_changes::amount::MAX_MANTISSA;
use balance_changes::balance_change_period_selector::BalanceChangePeriodSelector;
use balance_changes::balance_change_period_selector::SelectorError;
use balance_changes::balance_changes_accumulator::BalanceChangeAccumulator;
use balance_changes::identifiers::ClientOrderFillId;
use balance_changes::identifiers::CurrencyCode;
use balance_changes::identifiers::CurrencyPair;
use balance_changes::identifiers::ExchangeAccountId;
use balance_changes::identifiers::TradePlaceAccount;
use balance_changes::position_change::PositionAuthority;
use balance_changes::position_change::PositionChange;
use balance_changes::profit_loss_balance_change::ProfitLossBalanceChange;
use balance_changes::time::now;
use balance_changes::time::DateTime;
use balance_changes::time::Duration;
use rust_decimal::Decimal;

const SECOND: i64 = 1_000_000_000;

fn dec(text: &str) -> Decimal {
    Decimal::from_str(text).expect("a decimal literal")
}

fn amount(text: &str) -> Amount {
    let value = dec(text);
    Amount::new(value.mantissa(), value.scale()).expect("a decimal is an amount")
}

fn decimal(value: Amount) -> Decimal {
    Decimal::from_i128_with_scale(value.mantissa(), value.scale())
}

fn at(seconds: i64) -> DateTime {
    DateTime::from_timestamp_nanos(seconds * SECOND)
}

fn trade_place(pair: &str) -> TradePlaceAccount {
    TradePlaceAccount::new(ExchangeAccountId::new("EXC1", 0), CurrencyPair::new(pair))
}

fn change_on(
    pair: &str,
    fill: &str,
    currency: &str,
    seconds: i64,
    balance: &str,
) -> ProfitLossBalanceChange {
    ProfitLossBalanceChange::new(
        ExchangeAccountId::new("EXC1", 0),
        CurrencyPair::new(pair),
        CurrencyCode::new(currency),
        ClientOrderFillId::new(fill),
        at(seconds),
        amount(balance),
        amount(balance).checked_mul(&amount("2")).expect("no overflow"),
    )
}

fn change(fill: &str, currency: &str, seconds: i64, balance: &str) -> ProfitLossBalanceChange {
    change_on("base/quote", fill, currency, seconds, balance)
}

fn fills(items: &[ProfitLossBalanceChange]) -> Vec<String> {
    items
        .iter()
        .map(|item| item.client_order_fill_id.as_str().to_string())
        .collect()
}

/// A position authority that gives the same answer to every question, if the
/// question is about an instant after `since`, and writes the questions down.
struct FixedAuthority {
    answer: Option<PositionChange>,
    asked: RefCell<Vec<(TradePlaceAccount, DateTime)>>,
}

impl FixedAuthority {
    fn new(answer: Option<PositionChange>) -> Self {
        FixedAuthority {
            answer,
            asked: RefCell::new(Vec::new()),
        }
    }

    fn at_fill(fill: &str, portion: &str) -> Self {
        Self::new(Some(PositionChange::new(
            ClientOrderFillId::new(fill),
            amount(portion),
        )))
    }
}

impl<'a> PositionAuthority for &'a FixedAuthority {
    fn get_last_position_change_before_period(
        &self,
        trade_place: &TradePlaceAccount,
        start_of_period: DateTime,
    ) -> Option<PositionChange> {
        self.asked
            .borrow_mut()
            .push((trade_place.clone(), start_of_period));
        self.answer.clone()
    }
}

/// Stands where no position authority is configured.
struct NoAuthority;

impl PositionAuthority for NoAuthority {
    fn get_last_position_change_before_period(
        &self,
        _trade_place: &TradePlaceAccount,
        _start_of_period: DateTime,
    ) -> Option<PositionChange> {
        panic!("no position authority is configured")
    }
}

fn selector_without_authority(period_seconds: i64) -> BalanceChangePeriodSelector<NoAuthority> {
    BalanceChangePeriodSelector::new(Duration::nanoseconds(period_seconds * SECOND), None)
}

#[test]
fn new_selector_knows_no_trade_place() {
    let mut selector = selector_without_authority(10);
    assert_eq!(selector.period(), Duration::nanoseconds(10 * SECOND));
    assert_eq!(selector.get_trade_places(), Vec::new());
    assert!(!selector.has_trade_place(&trade_place("base/quote")));
    assert_eq!(selector.get_items_at(at(0)), Ok(Vec::new()));
    assert_eq!(
        selector.get_items_by_trade_place_at(at(0), &trade_place("base/quote")),
        Ok(Vec::new())
    );
    assert_eq!(
        selector.items_with(&trade_place("base/quote"), &None),
        Ok(Vec::new())
    );
    assert!(!selector.has_trade_place(&trade_place("base/quote")));
    assert_eq!(selector.get_trade_places(), Vec::new());
}

#[test]
fn add_makes_the_trade_place_known_and_keeps_the_change() {
    let mut selector = selector_without_authority(10);
    let first = change("f1", "base", 100, "1.5");
    assert_eq!(selector.add(&first), Ok(()));
    assert!(selector.has_trade_place(&trade_place("base/quote")));
    assert!(!selector.has_trade_place(&trade_place("other/quote")));
    assert_eq!(
        selector.items_with(&trade_place("base/quote"), &None),
        Ok(vec![first])
    );
}

#[test]
fn add_drops_what_is_older_than_the_period_before_the_new_change() {
    let mut selector = selector_without_authority(10);
    for (fill, seconds) in [("f1", 0), ("f2", 5), ("f3", 12), ("f4", 20)] {
        assert_eq!(selector.add(&change(fill, "base", seconds, "1")), Ok(()));
    }
    // the last change came at 20: the window begins at 10
    let kept = selector
        .items_with(&trade_place("base/quote"), &None)
        .expect("the trade place is known");
    assert_eq!(fills(&kept), vec!["f3", "f4"]);
}

#[test]
fn window_without_position_authority_holds_nothing_older_than_the_period() {
    let mut selector = selector_without_authority(10);
    for (fill, seconds) in [("f1", 100), ("f2", 104), ("f3", 107), ("f4", 109)] {
        assert_eq!(selector.add(&change(fill, "base", seconds, "1")), Ok(()));
    }
    let now = at(115);
    let items = selector
        .get_items_by_trade_place_at(now, &trade_place("base/quote"))
        .expect("the trade place is known");
    assert_eq!(fills(&items), vec!["f3", "f4"]);
    for item in &items {
        assert!(item.change_date >= at(105));
    }
    // a change at the very start of the period stays
    let items = selector
        .get_items_by_trade_place_at(at(117), &trade_place("base/quote"))
        .expect("the trade place is known");
    assert_eq!(fills(&items), vec!["f3", "f4"]);
    let items = selector
        .get_items_by_trade_place_at(at(118), &trade_place("base/quote"))
        .expect("the trade place is known");
    assert_eq!(fills(&items), vec!["f4"]);
    let items = selector
        .get_items_by_trade_place_at(at(1000), &trade_place("base/quote"))
        .expect("the trade place is known");
    assert_eq!(items, Vec::new());
    assert!(selector.has_trade_place(&trade_place("base/quote")));
}

#[test]
fn changes_are_shown_as_they_are_without_position_change() {
    let mut selector = selector_without_authority(10);
    let first = change("f1", "base", 100, "4.5");
    let second = change("f1", "quote", 100, "-2.5");
    assert_eq!(selector.add(&first), Ok(()));
    assert_eq!(selector.add(&second), Ok(()));
    assert_eq!(
        selector.get_items_by_trade_place_at(at(101), &trade_place("base/quote")),
        Ok(vec![first, second])
    );
}

#[test]
fn boundary_fill_stays_and_is_shown_by_its_portion() {
    let authority = FixedAuthority::at_fill("f2", "0.3");
    let mut selector =
        BalanceChangePeriodSelector::new(Duration::nanoseconds(10 * SECOND), Some(&authority));
    let changes = vec![
        change("f1", "base", 0, "7"),
        change("f1", "quote", 0, "-3.5"),
        change("f2", "base", 1, "4.5"),
        change("f2", "quote", 1, "-2.5"),
        change("f3", "base", 50, "1.25"),
    ];
    for added in &changes {
        assert_eq!(selector.add(added), Ok(()));
    }

    // every change is older than the period
    let items = selector
        .get_items_by_trade_place_at(at(1000), &trade_place("base/quote"))
        .expect("the trade place is known");

    assert_eq!(fills(&items), vec!["f2", "f2", "f3"]);
    assert_eq!(decimal(items[0].balance_change), dec("4.5") * dec("0.3"));
    assert_eq!(decimal(items[0].balance_change), dec("1.35"));
    assert_eq!(decimal(items[0].usd_balance_change), dec("9") * dec("0.3"));
    assert_eq!(decimal(items[1].balance_change), dec("-0.75"));
    assert_eq!(decimal(items[1].usd_balance_change), dec("-1.5"));
    assert_eq!(items[0].currency_code, CurrencyCode::new("base"));
    assert_eq!(items[1].currency_code, CurrencyCode::new("quote"));
    assert_eq!(items[0].change_date, at(1));
    assert_eq!(items[0].exchange_account_id, ExchangeAccountId::new("EXC1", 0));
    assert_eq!(items[0].currency_pair, CurrencyPair::new("base/quote"));
    // a change of another fill is not cut down
    assert_eq!(items[2], changes[4]);

    // the queue itself holds the changes as they were added
    assert_eq!(
        selector.items_with(&trade_place("base/quote"), &None),
        Ok(vec![changes[2].clone(), changes[3].clone(), changes[4].clone()])
    );
}

#[test]
fn position_authority_is_asked_for_the_trade_place_and_the_start_of_the_period() {
    let authority = FixedAuthority::at_fill("f1", "1");
    let mut selector =
        BalanceChangePeriodSelector::new(Duration::nanoseconds(10 * SECOND), Some(&authority));
    assert_eq!(selector.add(&change("f1", "base", 100, "1")), Ok(()));
    assert_eq!(
        authority.asked.borrow().clone(),
        vec![(trade_place("base/quote"), at(90))]
    );
    let boundary = selector.synchronize_period(at(150), &trade_place("base/quote"));
    assert_eq!(
        boundary,
        Ok(Some(PositionChange::new(
            ClientOrderFillId::new("f1"),
            amount("1")
        )))
    );
    assert_eq!(authority.asked.borrow().len(), 2);
    assert_eq!(
        authority.asked.borrow()[1],
        (trade_place("base/quote"), at(140))
    );
    // an unknown trade place is passed over without a question
    assert_eq!(
        selector.synchronize_period(at(150), &trade_place("other/quote")),
        Ok(None)
    );
    assert_eq!(authority.asked.borrow().len(), 2);
}

#[test]
fn boundary_fill_that_is_not_in_the_queue_empties_it() {
    let authority = FixedAuthority::at_fill("gone", "0.5");
    let mut selector =
        BalanceChangePeriodSelector::new(Duration::nanoseconds(10 * SECOND), Some(&authority));
    assert_eq!(selector.add(&change("f1", "base", 100, "1")), Ok(()));
    assert_eq!(
        selector.items_with(&trade_place("base/quote"), &None),
        Ok(Vec::new())
    );
}

#[test]
fn position_authority_without_position_change_leaves_the_time_window() {
    let authority = FixedAuthority::new(None);
    let mut selector =
        BalanceChangePeriodSelector::new(Duration::nanoseconds(10 * SECOND), Some(&authority));
    for (fill, seconds) in [("f1", 100), ("f2", 108)] {
        assert_eq!(selector.add(&change(fill, "base", seconds, "1")), Ok(()));
    }
    let items = selector
        .get_items_by_trade_place_at(at(112), &trade_place("base/quote"))
        .expect("the trade place is known");
    assert_eq!(fills(&items), vec!["f2"]);
}

#[test]
fn reading_twice_gives_the_same() {
    let authority = FixedAuthority::at_fill("f2", "0.25");
    let mut selector =
        BalanceChangePeriodSelector::new(Duration::nanoseconds(10 * SECOND), Some(&authority));
    for (fill, seconds) in [("f1", 100), ("f2", 104), ("f3", 109)] {
        assert_eq!(selector.add(&change(fill, "base", seconds, "8")), Ok(()));
    }
    let first = selector.get_items_by_trade_place_at(at(200), &trade_place("base/quote"));
    let second = selector.get_items_by_trade_place_at(at(200), &trade_place("base/quote"));
    assert_eq!(first, second);
    let items = first.expect("the trade place is known");
    assert_eq!(fills(&items), vec!["f2", "f3"]);
    assert_eq!(decimal(items[0].balance_change), dec("2"));
    assert_eq!(decimal(items[1].balance_change), dec("8"));

    let mut plain = selector_without_authority(10);
    for (fill, seconds) in [("f1", 100), ("f2", 104), ("f3", 109)] {
        assert_eq!(plain.add(&change(fill, "base", seconds, "8")), Ok(()));
    }
    let first = plain.get_items_at(at(112));
    let second = plain.get_items_at(at(112));
    assert_eq!(first, second);
    assert_eq!(
        first.map(|all| all.iter().map(|items| fills(items)).collect::<Vec<_>>()),
        Ok(vec![vec!["f2".to_string(), "f3".to_string()]])
    );
}

#[test]
fn synchronize_with_goes_by_the_given_position_change() {
    let mut selector = selector_without_authority(1000);
    for (fill, seconds) in [("f1", 100), ("f2", 104), ("f3", 109)] {
        assert_eq!(selector.add(&change(fill, "base", seconds, "8")), Ok(()));
    }
    let boundary = Some(PositionChange::new(
        ClientOrderFillId::new("f3"),
        amount("0.5"),
    ));
    selector.synchronize_with(at(0), &trade_place("base/quote"), &boundary);
    let items = selector
        .items_with(&trade_place("base/quote"), &boundary)
        .expect("the trade place is known");
    assert_eq!(fills(&items), vec!["f3"]);
    assert_eq!(decimal(items[0].balance_change), dec("4"));
    selector.synchronize_with(at(0), &trade_place("other/quote"), &boundary);
    assert!(!selector.has_trade_place(&trade_place("other/quote")));
    selector.synchronize_with(at(110), &trade_place("base/quote"), &None);
    assert_eq!(
        selector.items_with(&trade_place("base/quote"), &None),
        Ok(Vec::new())
    );
}

#[test]
fn trade_places_are_kept_apart_and_read_in_the_order_in_which_they_came() {
    let mut selector = selector_without_authority(10);
    let added = vec![
        change_on("b/q", "f1", "b", 100, "1"),
        change_on("a/q", "f2", "a", 101, "2"),
        change_on("b/q", "f3", "q", 102, "3"),
        change_on("a/q", "f4", "q", 112, "4"),
    ];
    for one in &added {
        assert_eq!(selector.add(one), Ok(()));
    }
    // the last change of a/q came at 112 and dropped the one of 101;
    // b/q was not touched by it
    assert_eq!(
        selector.items_with(&trade_place("b/q"), &None),
        Ok(vec![added[0].clone(), added[2].clone()])
    );
    assert_eq!(
        selector.items_with(&trade_place("a/q"), &None),
        Ok(vec![added[3].clone()])
    );
    assert_eq!(
        selector.get_trade_places(),
        vec![trade_place("b/q"), trade_place("a/q")]
    );
    let all = selector.get_items_at(at(112)).expect("no portion to cut");
    for (place, items) in selector.get_trade_places().iter().zip(all.iter()) {
        for item in items {
            assert_eq!(&item.trade_place_account(), place);
        }
    }
    assert_eq!(
        all,
        vec![vec![added[2].clone()], vec![added[3].clone()]]
    );
    assert_eq!(
        selector.items_with(&trade_place("b/q"), &None),
        Ok(vec![added[2].clone()])
    );
}

#[test]
fn start_of_period_out_of_range() {
    let mut selector = selector_without_authority(10);
    let first = DateTime::from_timestamp_nanos(i64::MIN + 5);
    assert_eq!(selector.start_of_period(first), None);
    assert_eq!(selector.start_of_period(at(100)), Some(at(90)));
    let early = ProfitLossBalanceChange::new(
        ExchangeAccountId::new("EXC1", 0),
        CurrencyPair::new("base/quote"),
        CurrencyCode::new("base"),
        ClientOrderFillId::new("f1"),
        first,
        amount("1"),
        amount("2"),
    );
    assert_eq!(
        selector.add(&early),
        Err(SelectorError::StartOfPeriodOutOfRange)
    );
    assert!(!selector.has_trade_place(&trade_place("base/quote")));
    assert_eq!(selector.add(&change("f2", "base", 100, "1")), Ok(()));
    assert_eq!(
        selector.get_items_by_trade_place_at(first, &trade_place("base/quote")),
        Err(SelectorError::StartOfPeriodOutOfRange)
    );
    assert_eq!(
        selector.get_items_at(first),
        Err(SelectorError::StartOfPeriodOutOfRange)
    );
    assert_eq!(
        selector.synchronize_period(first, &trade_place("base/quote")),
        Err(SelectorError::StartOfPeriodOutOfRange)
    );
    assert_eq!(
        selector
            .items_with(&trade_place("base/quote"), &None)
            .map(|items| fills(&items)),
        Ok(vec!["f2".to_string()])
    );
}

#[test]
fn portion_without_representation() {
    let authority = FixedAuthority::at_fill("f1", "10");
    let mut selector =
        BalanceChangePeriodSelector::new(Duration::nanoseconds(10 * SECOND), Some(&authority));
    let largest = Amount::new(MAX_MANTISSA, 0).expect("the largest amount");
    let huge = ProfitLossBalanceChange::new(
        ExchangeAccountId::new("EXC1", 0),
        CurrencyPair::new("base/quote"),
        CurrencyCode::new("base"),
        ClientOrderFillId::new("f1"),
        at(100),
        largest,
        amount("1"),
    );
    assert_eq!(huge.with_portion(amount("10")), None);
    assert_eq!(selector.add(&huge), Ok(()));
    assert_eq!(
        selector.get_items_by_trade_place_at(at(101), &trade_place("base/quote")),
        Err(SelectorError::PortionOverflow)
    );
    assert_eq!(
        selector.get_items_at(at(101)),
        Err(SelectorError::PortionOverflow)
    );
    assert_eq!(
        selector.items_with(&trade_place("base/quote"), &None),
        Ok(vec![huge])
    );
}

#[test]
fn with_portion_multiplies_both_amounts_and_keeps_the_rest() {
    let whole = change("f1", "base", 100, "4.5");
    let part = whole.with_portion(amount("0.4")).expect("no overflow");
    assert_eq!(decimal(part.balance_change), dec("1.8"));
    assert_eq!(decimal(part.usd_balance_change), dec("3.6"));
    assert_eq!(part.exchange_account_id, whole.exchange_account_id);
    assert_eq!(part.currency_pair, whole.currency_pair);
    assert_eq!(part.currency_code, whole.currency_code);
    assert_eq!(part.client_order_fill_id, whole.client_order_fill_id);
    assert_eq!(part.change_date, whole.change_date);
    assert_eq!(whole, change("f1", "base", 100, "4.5"));
    let other = whole.with_amounts(amount("1"), amount("-2"));
    assert_eq!(other.balance_change, amount("1"));
    assert_eq!(other.usd_balance_change, amount("-2"));
    assert_eq!(
        other.with_amounts(whole.balance_change, whole.usd_balance_change),
        whole
    );
    assert_eq!(whole.trade_place_account(), trade_place("base/quote"));
}

#[test]
fn reading_by_the_clock() {
    let hour = 3_600 * SECOND;
    let mut selector: BalanceChangePeriodSelector<NoAuthority> =
        BalanceChangePeriodSelector::new(Duration::nanoseconds(hour), None);
    assert_eq!(
        selector.get_items_by_trade_place(&trade_place("base/quote")),
        Ok(Vec::new())
    );
    assert!(!selector.has_trade_place(&trade_place("base/quote")));
    assert_eq!(selector.get_items(), Ok(Vec::new()));
    let present = now().expect("the clock is in range");
    let mut old = change("f1", "base", 0, "1");
    old.change_date = DateTime::from_timestamp_nanos(present.timestamp_nanos - 3 * hour);
    let mut older_than_period = change("f2", "base", 0, "2");
    older_than_period.change_date =
        DateTime::from_timestamp_nanos(present.timestamp_nanos - 2 * hour - 1);
    let mut fresh = change("f3", "base", 0, "3");
    fresh.change_date = present;
    assert_eq!(selector.add(&old), Ok(()));
    assert_eq!(selector.add(&older_than_period), Ok(()));
    // both are within an hour of the later one
    assert_eq!(
        selector
            .items_with(&trade_place("base/quote"), &None)
            .map(|items| fills(&items)),
        Ok(vec!["f1".to_string(), "f2".to_string()])
    );
    assert_eq!(
        selector.get_items_by_trade_place(&trade_place("base/quote")),
        Ok(Vec::new())
    );
    assert_eq!(selector.add(&old), Ok(()));
    assert_eq!(selector.add(&fresh), Ok(()));
    assert_eq!(
        selector.get_items_by_trade_place(&trade_place("base/quote")),
        Ok(vec![fresh.clone()])
    );
    assert_eq!(selector.get_items(), Ok(vec![vec![fresh]]));
}

#[test]
fn selector_is_an_accumulator() {
    fn hand<T: BalanceChangeAccumulator>(accumulator: &mut T, added: &ProfitLossBalanceChange) {
        accumulator.add_balance_change(added);
    }
    let mut selector = selector_without_authority(10);
    let first = change("f1", "base", 100, "1.5");
    let second = change("f2", "base", 115, "2.5");
    hand(&mut selector, &first);
    assert_eq!(
        selector.items_with(&trade_place("base/quote"), &None),
        Ok(vec![first])
    );
    hand(&mut selector, &second);
    assert_eq!(
        selector.items_with(&trade_place("base/quote"), &None),
        Ok(vec![second.clone()])
    );
    // a change whose window cannot be counted is passed over
    let mut early = change("f3", "base", 0, "1");
    early.change_date = DateTime::from_timestamp_nanos(i64::MIN);
    hand(&mut selector, &early);
    assert_eq!(
        selector.items_with(&trade_place("base/quote"), &None),
        Ok(vec![second])
    );
}

#[test]
fn read_of_a_trade_place_without_queue_is_passed_over() {
    let authority = FixedAuthority::at_fill("f1", "0.5");
    let mut selector =
        BalanceChangePeriodSelector::new(Duration::nanoseconds(10 * SECOND), Some(&authority));
    let known = change("f1", "base", 100, "8");
    assert_eq!(selector.add(&known), Ok(()));
    assert_eq!(authority.asked.borrow().len(), 1);

    // no change was ever added for this trading place
    let other = trade_place("other/quote");
    assert_eq!(
        selector.get_items_by_trade_place_at(at(105), &other),
        Ok(Vec::new())
    );
    assert_eq!(
        selector.get_items_by_trade_place(&other),
        Ok(Vec::new())
    );
    let boundary = Some(PositionChange::new(
        ClientOrderFillId::new("f1"),
        amount("0.5"),
    ));
    assert_eq!(selector.items_with(&other, &boundary), Ok(Vec::new()));

    // no queue was made, the position authority was not asked, and the
    // queue that is there is as it was
    assert!(!selector.has_trade_place(&other));
    assert_eq!(
        selector.get_trade_places(),
        vec![trade_place("base/quote")]
    );
    assert_eq!(authority.asked.borrow().len(), 1);
    assert_eq!(
        selector.items_with(&trade_place("base/quote"), &None),
        Ok(vec![known])
    );

    // the start of the period is looked at before the trading place
    assert_eq!(
        selector.get_items_by_trade_place_at(DateTime::from_timestamp_nanos(i64::MIN), &other),
        Err(SelectorError::StartOfPeriodOutOfRange)
    );
}
