use std::str::FromStr;

use balance_changes::amount::Amount;
use balance_changes::amount::MAX_MANTISSA;
use balance_changes::amount::MAX_SCALE;
use balance_changes::time::now;
use balance_changes::time::DateTime;
use balance_changes::time::Duration;
use rust_decimal::Decimal;

fn dec(text: &str) -> Decimal {
    Decimal::from_str(text).expect("a decimal literal")
}

fn amount(text: &str) -> Amount {
    let value = dec(text);
    Amount::new(value.mantissa(), value.scale()).expect("a decimal is an amount")
}

fn decimal(value: Amount) -> Decimal {
    Decimal::from_i128_with_scale(value.mantissa(), value.scale())
}

#[test]
fn amount_holds_mantissa_and_scale() {
    let a = Amount::new(-12345, 3).expect("within the limits");
    assert_eq!(a.mantissa(), -12345);
    assert_eq!(a.scale(), 3);
    assert_eq!(decimal(a), dec("-12.345"));
    assert!(!a.is_zero());
}

#[test]
fn amount_limits() {
    assert_eq!(MAX_SCALE, 28);
    assert_eq!(MAX_MANTISSA, 79_228_162_514_264_337_593_543_950_335);
    assert!(Amount::new(1, 28).is_some());
    assert!(Amount::new(1, 29).is_none());
    assert!(Amount::new(MAX_MANTISSA, 0).is_some());
    assert!(Amount::new(-MAX_MANTISSA, 28).is_some());
    assert!(Amount::new(MAX_MANTISSA + 1, 0).is_none());
    assert!(Amount::new(-MAX_MANTISSA - 1, 0).is_none());
    assert!(Amount::new(i128::MIN, 0).is_none());
    assert_eq!(
        decimal(Amount::new(MAX_MANTISSA, 0).expect("the largest amount")),
        Decimal::MAX
    );
}

#[test]
fn amount_zero() {
    let zero = Amount::zero();
    assert_eq!(zero.mantissa(), 0);
    assert_eq!(zero.scale(), 0);
    assert!(zero.is_zero());
    assert!(Amount::new(0, 5).expect("zero at scale five").is_zero());
}

#[test]
fn amount_negated() {
    let a = amount("4.50");
    let n = a.negated();
    assert_eq!(n.mantissa(), -450);
    assert_eq!(n.scale(), 2);
    assert_eq!(n.negated(), a);
    assert_eq!(decimal(n), -decimal(a));
    assert_eq!(Amount::zero().negated(), Amount::zero());
}

#[test]
fn amount_checked_mul_is_the_decimal_product() {
    let product = amount("14").checked_mul(&amount("1.232")).expect("no overflow");
    assert_eq!(product.mantissa(), 17248);
    assert_eq!(product.scale(), 3);
    assert_eq!(decimal(product), dec("14") * dec("1.232"));
    let product = amount("-0.5").checked_mul(&amount("0.5")).expect("no overflow");
    assert_eq!(decimal(product), dec("-0.25"));
}

#[test]
fn amount_checked_mul_overflow() {
    let largest = Amount::new(MAX_MANTISSA, 0).expect("the largest amount");
    assert_eq!(largest.checked_mul(&amount("10")), None);
    assert_eq!(decimal(largest).checked_mul(dec("10")), None);
}

#[test]
fn amount_checked_div_is_the_decimal_quotient() {
    let quotient = amount("5").checked_div(&amount("2")).expect("no overflow");
    assert_eq!(decimal(quotient), dec("2.5"));
    let quotient = amount("40.2398462").checked_div(&amount("1.2")).expect("no overflow");
    assert_eq!(decimal(quotient), dec("40.2398462") / dec("1.2"));
    assert_eq!(quotient.scale(), (dec("40.2398462") / dec("1.2")).scale());
}

#[test]
fn amount_checked_div_by_zero() {
    assert_eq!(amount("5").checked_div(&Amount::zero()), None);
    assert_eq!(amount("5").checked_div(&amount("0.000")), None);
}

#[test]
fn amount_checked_sub_is_the_decimal_difference() {
    let difference = amount("5").checked_sub(&amount("0.5")).expect("no overflow");
    assert_eq!(difference.mantissa(), 45);
    assert_eq!(difference.scale(), 1);
    let difference = amount("17.248").checked_sub(&amount("1.7248")).expect("no overflow");
    assert_eq!(decimal(difference), dec("15.5232"));
}

#[test]
fn amount_checked_sub_overflow() {
    let largest = Amount::new(MAX_MANTISSA, 0).expect("the largest amount");
    assert_eq!(largest.negated().checked_sub(&largest), None);
}

#[test]
fn instant_before_a_span() {
    let at = DateTime::from_timestamp_nanos(1_600_000_000_000_000_000);
    let hour = Duration::nanoseconds(3_600_000_000_000);
    assert_eq!(
        at.checked_sub(hour),
        Some(DateTime::from_timestamp_nanos(1_599_996_400_000_000_000))
    );
    assert_eq!(
        at.checked_sub(Duration::nanoseconds(-1)),
        Some(DateTime::from_timestamp_nanos(1_600_000_000_000_000_001))
    );
    assert_eq!(at.checked_sub(Duration::nanoseconds(0)), Some(at));
    assert_eq!(
        DateTime::from_timestamp_nanos(-5).checked_sub(Duration::nanoseconds(7)),
        Some(DateTime::from_timestamp_nanos(-12))
    );
}

#[test]
fn instant_before_a_span_at_the_limits() {
    let first = DateTime::from_timestamp_nanos(i64::MIN);
    let last = DateTime::from_timestamp_nanos(i64::MAX);
    assert_eq!(first.checked_sub(Duration::nanoseconds(1)), None);
    assert_eq!(last.checked_sub(Duration::nanoseconds(-1)), None);
    assert_eq!(first.checked_sub(Duration::nanoseconds(0)), Some(first));
    assert_eq!(last.checked_sub(Duration::nanoseconds(0)), Some(last));
    assert_eq!(
        last.checked_sub(Duration::nanoseconds(i64::MAX)),
        Some(DateTime::from_timestamp_nanos(0))
    );
    assert_eq!(
        first.checked_sub(Duration::nanoseconds(i64::MIN)),
        Some(DateTime::from_timestamp_nanos(0))
    );
    assert_eq!(
        DateTime::from_timestamp_nanos(-1).checked_sub(Duration::nanoseconds(i64::MIN)),
        Some(last)
    );
    assert_eq!(
        DateTime::from_timestamp_nanos(0).checked_sub(Duration::nanoseconds(i64::MIN)),
        None
    );
    assert_eq!(last.checked_sub(Duration::nanoseconds(i64::MIN)), None);
    assert_eq!(first.checked_sub(Duration::nanoseconds(i64::MAX)), None);
}

#[test]
fn instants_are_ordered_by_their_count() {
    let earlier = DateTime::from_timestamp_nanos(5);
    let later = DateTime::from_timestamp_nanos(6);
    assert!(earlier.is_before(&later));
    assert!(!later.is_before(&earlier));
    assert!(!earlier.is_before(&earlier));
    assert!(earlier < later);
}

#[test]
fn the_clock_can_be_read() {
    let first = now().expect("the clock is in range");
    let second = now().expect("the clock is in range");
    // 2020-01-01T00:00:00Z
    assert!(DateTime::from_timestamp_nanos(1_577_836_800_000_000_000).is_before(&first));
    assert!(!second.is_before(&first));
    let chrono_now = chrono::Utc::now()
        .timestamp_nanos_opt()
        .expect("the clock is in range");
    assert!(chrono_now >= second.timestamp_nanos);
}
