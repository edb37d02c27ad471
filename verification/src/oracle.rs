//! Two-source external price resolution: a primary oracle reading with a
//! freshness window, a decentralized-exchange spot price as fallback, and the
//! conversion of a raw 8-decimal reading into a basis-point multiplier.
//!
//! The host performs the actual cross-contract calls; the functions here make
//! every decision the protocol takes on the fetched values, so total
//! unavailability of both feeds degrades to "no result" and never to a hard
//! failure.

use crate::errors::TicketError;
use crate::math::{in_i128, tdiv};
use vstd::prelude::*;

verus! {

/// How long (in seconds) a primary oracle reading stays fresh by default.
pub const DEFAULT_STALENESS_SECONDS: u64 = 86_400;

/// The oracle reports prices with 8 decimal places: 1.0 == 100_000_000.
pub const DIA_ORACLE_DECIMALS: i128 = 100_000_000;

/// Basis-point scale of the price multiplier: 10_000 == 1x (neutral).
pub const ORACLE_PRECISION: i128 = 10_000;

/// One resolved external price reading. Transient: produced per resolution
/// call, never persisted.
#[derive(Clone, Copy, PartialEq, Eq, Structural, Debug)]
pub struct OracleResult {
    /// Price with 8 decimal places.
    pub price: i128,
    /// UNIX timestamp when this price was last updated.
    pub timestamp: u64,
    /// Whether this came from the primary oracle (true) or the fallback
    /// exchange router (false). Retained for audit, not consumed by pricing.
    pub from_primary: bool,
}

/// A primary reading taken at `timestamp` is acceptable at time `now`:
/// a timestamp in the future is tolerated, otherwise the reading's age must
/// be within `max_age_seconds`.
pub open spec fn fresh_at(now: u64, timestamp: u64, max_age_seconds: u64) -> bool {
    now <= timestamp || now - timestamp <= max_age_seconds
}

/// Freshness decision on a primary oracle reading.
pub fn primary_is_acceptable(now: u64, timestamp: u64, max_age_seconds: u64) -> (r: bool)
    ensures
        r == fresh_at(now, timestamp, max_age_seconds),
{
    if now <= timestamp {
        true
    } else {
        now - timestamp <= max_age_seconds
    }
}

/// Whether the fallback exchange router must be consulted: the primary call
/// failed outright, or its reading is stale.
pub fn needs_fallback(primary: &Option<(i128, u64)>, now: u64, max_age_seconds: u64) -> (r: bool)
    ensures
        r == !(primary is Some && fresh_at(now, primary->Some_0.1, max_age_seconds)),
{
    match primary {
        Some((_, timestamp)) => !primary_is_acceptable(now, *timestamp, max_age_seconds),
        None => true,
    }
}

/// The whole resolution policy over the two fetched outcomes: a fresh primary
/// reading wins with its own timestamp; otherwise any exchange spot price is
/// taken as fresh at `now`; otherwise there is no result.
pub open spec fn resolve_spec(
    primary: Option<(i128, u64)>,
    dex: Option<i128>,
    now: u64,
    max_age_seconds: u64,
) -> Option<OracleResult> {
    if primary is Some && fresh_at(now, primary->Some_0.1, max_age_seconds) {
        Some(
            OracleResult {
                price: primary->Some_0.0,
                timestamp: primary->Some_0.1,
                from_primary: true,
            },
        )
    } else if dex is Some {
        Some(OracleResult { price: dex->Some_0, timestamp: now, from_primary: false })
    } else {
        None
    }
}

/// Resolve a price from the outcome of the primary oracle call and, where it
/// was needed, the outcome of the exchange router call. `None` means both
/// sources are unavailable; callers treat that as "apply no adjustment",
/// never as an error.
pub fn resolve_with_fallback(
    primary: Option<(i128, u64)>,
    dex: Option<i128>,
    now: u64,
    max_age_seconds: u64,
) -> (r: Option<OracleResult>)
    ensures
        r == resolve_spec(primary, dex, now, max_age_seconds),
{
    match primary {
        Some((price, timestamp)) => {
            if primary_is_acceptable(now, timestamp, max_age_seconds) {
                return Some(OracleResult { price, timestamp, from_primary: true });
            }
        },
        None => {},
    }
    match dex {
        Some(price) => Some(OracleResult { price, timestamp: now, from_primary: false }),
        None => None,
    }
}

/// The multiplier a raw 8-decimal reading yields against a configured
/// reference price: `raw * precision / reference`, truncating toward zero.
/// A reference of zero gives no basis for a ratio, so the multiplier is the
/// neutral `precision` — a deliberate escape, not an error.
pub open spec fn multiplier_spec(raw_price: int, reference: int, precision: int) -> int {
    if reference == 0 {
        precision
    } else {
        tdiv(raw_price * precision, reference)
    }
}

/// When the executable conversion stays inside `i128`: the scaled product
/// must fit, and so must the quotient.
pub open spec fn multiplier_fits(raw_price: int, reference: int, precision: int) -> bool {
    reference != 0 ==> in_i128(raw_price * precision) && in_i128(
        tdiv(raw_price * precision, reference),
    )
}

/// Convert a raw 8-decimal oracle price into a `oracle_precision`-scaled
/// multiplier relative to `reference_price_8dec`. For example, a reading of
/// 110_000_000 against a reference of 100_000_000 yields 11_000 when the
/// precision is 10_000.
pub fn oracle_price_to_multiplier(
    raw_price: i128,
    reference_price_8dec: i128,
    oracle_precision: i128,
) -> (r: i128)
    requires
        multiplier_fits(raw_price as int, reference_price_8dec as int, oracle_precision as int),
    ensures
        r == multiplier_spec(
            raw_price as int,
            reference_price_8dec as int,
            oracle_precision as int,
        ),
        reference_price_8dec == 0 ==> r == oracle_precision,
{
    if reference_price_8dec == 0 {
        return oracle_precision;
    }
    let scaled = raw_price * oracle_precision;
    scaled.checked_div(reference_price_8dec).unwrap()
}

/// The multiplier the pricing engine applies for a resolution outcome:
/// neutral when no source was available, otherwise the converted reading.
pub open spec fn multiplier_of(oracle: Option<OracleResult>, reference: int) -> int {
    match oracle {
        None => ORACLE_PRECISION as int,
        Some(res) => multiplier_spec(res.price as int, reference, ORACLE_PRECISION as int),
    }
}

/// When the executable multiplier computation for an outcome stays inside
/// `i128`. Unavailability is always in range (the multiplier is a constant).
pub open spec fn multiplier_of_fits(oracle: Option<OracleResult>, reference: int) -> bool {
    oracle is Some ==> multiplier_fits(
        oracle->Some_0.price as int,
        reference,
        ORACLE_PRECISION as int,
    )
}

/// Compute the pricing multiplier for a resolution outcome, reporting an
/// overflow instead of wrapping when an extreme reading leaves `i128`.
pub fn oracle_multiplier(oracle: &Option<OracleResult>, reference_price_8dec: i128) -> (r: Result<
    i128,
    TicketError,
>)
    ensures
        r is Ok <==> multiplier_of_fits(*oracle, reference_price_8dec as int),
        r is Ok ==> r->Ok_0 == multiplier_of(*oracle, reference_price_8dec as int),
        r is Err ==> r->Err_0 == TicketError::ArithmeticOverflow,
        oracle is None ==> r == Ok::<i128, TicketError>(ORACLE_PRECISION),
{
    match oracle {
        None => Ok(ORACLE_PRECISION),
        Some(res) => {
            if reference_price_8dec == 0 {
                Ok(ORACLE_PRECISION)
            } else {
                let scaled = match res.price.checked_mul(ORACLE_PRECISION) {
                    Some(s) => s,
                    None => {
                        return Err(TicketError::ArithmeticOverflow);
                    },
                };
                match scaled.checked_div(reference_price_8dec) {
                    Some(m) => Ok(m),
                    None => Err(TicketError::ArithmeticOverflow),
                }
            }
        },
    }
}

} // verus!
