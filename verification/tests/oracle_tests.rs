//! Tests of the two-source price resolution protocol and the multiplier
//! conversion.

use soulbound_tickets::errors::TicketError;
use soulbound_tickets::oracle::{
    needs_fallback, oracle_multiplier, oracle_price_to_multiplier, resolve_with_fallback,
    OracleResult, DEFAULT_STALENESS_SECONDS, DIA_ORACLE_DECIMALS, ORACLE_PRECISION,
};

#[test]
fn test_multiplier_neutral_on_zero_reference() {
    // A reference price of zero yields exactly the neutral multiplier, for
    // any raw price.
    assert_eq!(oracle_price_to_multiplier(0, 0, ORACLE_PRECISION), ORACLE_PRECISION);
    assert_eq!(oracle_price_to_multiplier(1, 0, ORACLE_PRECISION), ORACLE_PRECISION);
    assert_eq!(oracle_price_to_multiplier(-123_456, 0, ORACLE_PRECISION), ORACLE_PRECISION);
    assert_eq!(oracle_price_to_multiplier(i128::MAX, 0, ORACLE_PRECISION), ORACLE_PRECISION);
    assert_eq!(oracle_price_to_multiplier(i128::MIN, 0, ORACLE_PRECISION), ORACLE_PRECISION);
}

#[test]
fn test_multiplier_ratio() {
    // $1.10 against a $1.00 baseline is a 1.1x multiplier in basis points.
    assert_eq!(oracle_price_to_multiplier(110_000_000, DIA_ORACLE_DECIMALS, 10_000), 11_000);
    // Equal reading and reference is neutral.
    assert_eq!(
        oracle_price_to_multiplier(DIA_ORACLE_DECIMALS, DIA_ORACLE_DECIMALS, 10_000),
        10_000
    );
    // Half the reference halves the multiplier.
    assert_eq!(oracle_price_to_multiplier(50_000_000, DIA_ORACLE_DECIMALS, 10_000), 5_000);
    // Truncation goes toward zero.
    assert_eq!(oracle_price_to_multiplier(1, 3, 10_000), 3_333);
    assert_eq!(oracle_price_to_multiplier(-1, 3, 10_000), -3_333);
}

#[test]
fn test_oracle_multiplier_of_outcomes() {
    // No resolved source: neutral.
    assert_eq!(oracle_multiplier(&None, DIA_ORACLE_DECIMALS), Ok(ORACLE_PRECISION));
    // A resolved reading is converted against the reference.
    let reading = OracleResult { price: 120_000_000, timestamp: 5, from_primary: true };
    assert_eq!(oracle_multiplier(&Some(reading), DIA_ORACLE_DECIMALS), Ok(12_000));
    // Zero reference: neutral whatever the reading.
    assert_eq!(oracle_multiplier(&Some(reading), 0), Ok(ORACLE_PRECISION));
}

#[test]
fn test_oracle_multiplier_overflow_reported() {
    let absurd = OracleResult { price: i128::MAX, timestamp: 5, from_primary: true };
    assert_eq!(
        oracle_multiplier(&Some(absurd), DIA_ORACLE_DECIMALS),
        Err(TicketError::ArithmeticOverflow)
    );
}

#[test]
fn test_resolver_prefers_fresh_primary() {
    let now = 100_000;
    let r = resolve_with_fallback(Some((77, 99_000)), Some(55), now, DEFAULT_STALENESS_SECONDS);
    let r = r.unwrap();
    assert!(r.from_primary);
    assert_eq!(r.price, 77);
    assert_eq!(r.timestamp, 99_000);
}

#[test]
fn test_resolver_staleness_boundary() {
    // Age exactly equal to the window is still fresh.
    let r = resolve_with_fallback(Some((77, 1_000)), Some(55), 1_000 + 600, 600);
    assert!(r.unwrap().from_primary);
    // One second past the window is stale: the exchange price wins and is
    // stamped with the current time.
    let r = resolve_with_fallback(Some((77, 1_000)), Some(55), 1_000 + 601, 600);
    let r = r.unwrap();
    assert!(!r.from_primary);
    assert_eq!(r.price, 55);
    assert_eq!(r.timestamp, 1_601);
}

#[test]
fn test_resolver_future_timestamp_is_fresh() {
    // A reading stamped in the future is tolerated, not treated as stale.
    let r = resolve_with_fallback(Some((77, 2_000)), None, 1_000, 0);
    assert!(r.unwrap().from_primary);
}

#[test]
fn test_resolver_falls_back_when_primary_missing() {
    let r = resolve_with_fallback(None, Some(55), 1_000, 600);
    let r = r.unwrap();
    assert!(!r.from_primary);
    assert_eq!(r.price, 55);
}

#[test]
fn test_resolver_unavailable_when_both_missing() {
    // Total unavailability is "no result", never a failure.
    assert_eq!(resolve_with_fallback(None, None, 1_000, 600), None);
    assert_eq!(resolve_with_fallback(Some((77, 1)), None, 1_000_000, 600), None);
}

#[test]
fn test_needs_fallback_decision() {
    assert!(needs_fallback(&None, 1_000, 600));
    assert!(needs_fallback(&Some((77, 1)), 1_000_000, 600));
    assert!(!needs_fallback(&Some((77, 999)), 1_000, 600));
}
