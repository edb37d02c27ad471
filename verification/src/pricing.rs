//! Per-tier configuration and the dynamic price computation.
//!
//! A tier's current unit price starts from its base price, applies one of
//! four pricing strategies, then the external oracle multiplier, then the
//! global floor/ceiling bounds — in that fixed order, with truncating
//! fixed-point arithmetic that is proved never to wrap: a computation whose
//! exact value would leave the 128-bit range is reported as an overflow
//! error instead.

use crate::errors::TicketError;
use crate::math::{div_trunc, in_i128, tdiv};
use crate::oracle::{
    multiplier_of, multiplier_of_fits, oracle_multiplier, OracleResult, ORACLE_PRECISION,
};
use vstd::prelude::*;

verus! {

/// Markup in basis points applied per passed demand threshold (5%).
pub const PRICE_INCREASE_BPS: i128 = 500;

/// Maximum early-bird discount in basis points (10%).
pub const EARLY_BIRD_DISCOUNT_BPS: i128 = 1_000;

/// Flat markup in basis points of the higher-floor experiment arm (20%).
pub const FLAT_MARKUP_BPS: i128 = 2_000;

/// Basis points making up the whole: 10_000 == 100%.
pub const BPS_DENOMINATOR: i128 = 10_000;

/// Seconds in the week-long early-bird window before the event start.
pub const EARLY_BIRD_WINDOW_SECONDS: u64 = 604_800;

/// The closed set of pricing strategies. Dispatched once per price
/// computation; adding a strategy is a data-model change.
#[derive(Clone, Copy, PartialEq, Eq, Structural, Debug)]
pub enum PricingStrategy {
    /// Demand-tiered markup: 5% per quintile of supply sold.
    Standard,
    /// Early-bird discount of 10% until a week before the event start.
    TimeDecay,
    /// Experiment arm with doubled demand sensitivity (10% per quintile).
    AbTestA,
    /// Experiment arm with a flat 20% markup.
    AbTestB,
}

/// Event timing. Immutable after initialization.
#[derive(Clone, Copy, PartialEq, Eq, Structural, Debug)]
pub struct EventInfo {
    /// Absolute timestamp at which the event starts.
    pub start_time: u64,
    /// Last timestamp (inclusive) at which a refund is accepted.
    pub refund_cutoff_time: u64,
}

/// Global pricing configuration, mutated only by admin-authorized calls.
#[derive(Debug)]
pub struct PricingConfig {
    /// Endpoint of the primary price oracle, as address text.
    pub oracle_address: String,
    /// Endpoint of the fallback exchange price router, as address text.
    pub dex_pool_address: String,
    /// Inclusive lower bound on every computed price.
    pub price_floor: i128,
    /// Inclusive upper bound on every computed price.
    pub price_ceiling: i128,
    /// Informational: intended seconds between oracle refreshes.
    pub update_frequency: u64,
    /// Timestamp of the last completed purchase.
    pub last_update_time: u64,
    /// When true, pricing returns the tier's last recorded price unmodified.
    pub is_frozen: bool,
    /// Market symbol the oracle is queried for.
    pub oracle_pair: String,
    /// 8-decimal baseline that normalizes raw oracle readings into a
    /// multiplier; zero means "no basis for a ratio" (neutral multiplier).
    pub oracle_reference_price: i128,
    /// Freshness window for primary oracle readings, in seconds.
    pub max_oracle_age_seconds: u64,
}

/// One ticket class: its own supply cap, base price and pricing strategy.
/// `minted` and `current_price` are the only fields mutated after creation.
#[derive(Debug)]
pub struct Tier {
    /// Short identifier the tier is keyed by.
    pub symbol: u64,
    /// Display name.
    pub name: String,
    /// Starting unit price the strategy adjustments build on.
    pub base_price: i128,
    /// Last price actually charged; the frozen-mode readback value.
    pub current_price: i128,
    /// Supply cap: `minted` never exceeds it.
    pub max_supply: u32,
    /// Monotonic counter of tickets minted from this tier.
    pub minted: u32,
    /// Whether the tier is open for purchase.
    pub active: bool,
    /// How demand and time adjust this tier's price.
    pub strategy: PricingStrategy,
}

/// Size of one demand quintile: a fifth of the supply cap, floored at 1 so a
/// tiny or empty tier never divides by zero.
pub open spec fn threshold_divisor(max_supply: u32) -> int {
    let floored = if max_supply >= 1 {
        max_supply as int
    } else {
        1
    };
    let fifth = floored / 5;
    if fifth >= 1 {
        fifth
    } else {
        1
    }
}

/// How many demand quintiles the minted count has passed.
pub open spec fn thresholds_passed(minted: u32, max_supply: u32) -> int {
    (minted as int) / threshold_divisor(max_supply)
}

/// Start of the period in which the early-bird discount no longer applies:
/// one week before the event, saturating at time zero.
pub open spec fn early_bird_start(event_start: u64) -> int {
    if event_start >= EARLY_BIRD_WINDOW_SECONDS {
        event_start - EARLY_BIRD_WINDOW_SECONDS
    } else {
        0
    }
}

/// The exact price after the tier's strategy adjustment, over mathematical
/// integers: basis-point markups and discounts with truncating division.
pub open spec fn strategy_price(tier: Tier, event_start: u64, now: u64) -> int {
    let base = tier.base_price as int;
    match tier.strategy {
        PricingStrategy::Standard => {
            let thr = thresholds_passed(tier.minted, tier.max_supply);
            base + tdiv(base * PRICE_INCREASE_BPS * thr, BPS_DENOMINATOR as int)
        },
        PricingStrategy::TimeDecay => {
            if (now as int) < early_bird_start(event_start) {
                base - tdiv(base * EARLY_BIRD_DISCOUNT_BPS, BPS_DENOMINATOR as int)
            } else {
                base
            }
        },
        PricingStrategy::AbTestA => {
            let thr = thresholds_passed(tier.minted, tier.max_supply);
            base + tdiv(base * (PRICE_INCREASE_BPS * 2) * thr, BPS_DENOMINATOR as int)
        },
        PricingStrategy::AbTestB => {
            base + tdiv(base * FLAT_MARKUP_BPS, BPS_DENOMINATOR as int)
        },
    }
}

/// When each intermediate of the executable strategy adjustment fits in
/// `i128`, in the order the computation takes its steps.
pub open spec fn strategy_price_fits(tier: Tier, event_start: u64, now: u64) -> bool {
    let base = tier.base_price as int;
    match tier.strategy {
        PricingStrategy::Standard => {
            let thr = thresholds_passed(tier.minted, tier.max_supply);
            &&& in_i128(base * PRICE_INCREASE_BPS)
            &&& in_i128(base * PRICE_INCREASE_BPS * thr)
            &&& in_i128(base + tdiv(base * PRICE_INCREASE_BPS * thr, BPS_DENOMINATOR as int))
        },
        PricingStrategy::TimeDecay => {
            (now as int) < early_bird_start(event_start) ==> {
                &&& in_i128(base * EARLY_BIRD_DISCOUNT_BPS)
                &&& in_i128(base - tdiv(base * EARLY_BIRD_DISCOUNT_BPS, BPS_DENOMINATOR as int))
            }
        },
        PricingStrategy::AbTestA => {
            let thr = thresholds_passed(tier.minted, tier.max_supply);
            &&& in_i128(base * (PRICE_INCREASE_BPS * 2))
            &&& in_i128(base * (PRICE_INCREASE_BPS * 2) * thr)
            &&& in_i128(
                base + tdiv(base * (PRICE_INCREASE_BPS * 2) * thr, BPS_DENOMINATOR as int),
            )
        },
        PricingStrategy::AbTestB => {
            &&& in_i128(base * FLAT_MARKUP_BPS)
            &&& in_i128(base + tdiv(base * FLAT_MARKUP_BPS, BPS_DENOMINATOR as int))
        },
    }
}

/// Clamp into `[floor, ceiling]` the way the computation applies its bounds:
/// the floor is raised first, the ceiling capped second (so an inverted pair
/// of bounds ends at the ceiling).
pub open spec fn clamp(x: int, floor: int, ceiling: int) -> int {
    let raised = if x >= floor {
        x
    } else {
        floor
    };
    if raised <= ceiling {
        raised
    } else {
        ceiling
    }
}

/// The exact computed price for a given oracle multiplier: strategy-adjusted
/// price scaled by the multiplier (multiply first, then truncate), clamped
/// into the configured bounds.
pub open spec fn computed_price_with_multiplier(
    tier: Tier,
    config: PricingConfig,
    event_start: u64,
    now: u64,
    multiplier: int,
) -> int {
    clamp(
        tdiv(strategy_price(tier, event_start, now) * multiplier, ORACLE_PRECISION as int),
        config.price_floor as int,
        config.price_ceiling as int,
    )
}

/// The exact computed price for an oracle resolution outcome.
pub open spec fn computed_price(
    tier: Tier,
    config: PricingConfig,
    event_start: u64,
    now: u64,
    oracle: Option<OracleResult>,
) -> int {
    computed_price_with_multiplier(
        tier,
        config,
        event_start,
        now,
        multiplier_of(oracle, config.oracle_reference_price as int),
    )
}

/// When the whole executable (non-frozen) price computation stays in `i128`.
pub open spec fn price_fits(
    tier: Tier,
    config: PricingConfig,
    event_start: u64,
    now: u64,
    oracle: Option<OracleResult>,
) -> bool {
    &&& strategy_price_fits(tier, event_start, now)
    &&& multiplier_of_fits(oracle, config.oracle_reference_price as int)
    &&& in_i128(
        strategy_price(tier, event_start, now) * multiplier_of(
            oracle,
            config.oracle_reference_price as int,
        ),
    )
}

/// How many demand quintiles of the tier's supply have been sold.
fn demand_thresholds(minted: u32, max_supply: u32) -> (r: u32)
    ensures
        r as int == thresholds_passed(minted, max_supply),
{
    let floored: u32 = if max_supply >= 1 {
        max_supply
    } else {
        1
    };
    let fifth: u32 = floored / 5;
    let divisor: u32 = if fifth >= 1 {
        fifth
    } else {
        1
    };
    minted / divisor
}

/// Compute the current unit price for a tier.
///
/// A frozen configuration short-circuits to the tier's last recorded price —
/// no recomputation, no oracle input consumed. Otherwise the result is the
/// exact strategy-adjusted, multiplier-scaled, clamped price whenever that
/// computation fits in `i128`, and an `ArithmeticOverflow` error exactly
/// otherwise. Pricing queries are side-effect-free.
pub fn compute_price(
    tier: &Tier,
    config: &PricingConfig,
    event: &EventInfo,
    now: u64,
    oracle: Option<OracleResult>,
) -> (r: Result<i128, TicketError>)
    ensures
        config.is_frozen ==> r == Ok::<i128, TicketError>(tier.current_price),
        !config.is_frozen ==> (r is Ok <==> price_fits(
            *tier,
            *config,
            event.start_time,
            now,
            oracle,
        )),
        !config.is_frozen && r is Ok ==> r->Ok_0 == computed_price(
            *tier,
            *config,
            event.start_time,
            now,
            oracle,
        ),
        r is Err ==> r->Err_0 == TicketError::ArithmeticOverflow,
{
    if config.is_frozen {
        return Ok(tier.current_price);
    }
    let base = tier.base_price;
    let adjusted: i128 = match tier.strategy {
        PricingStrategy::Standard => {
            let thr = demand_thresholds(tier.minted, tier.max_supply);
            let scaled = match base.checked_mul(PRICE_INCREASE_BPS) {
                Some(v) => v,
                None => {
                    return Err(TicketError::ArithmeticOverflow);
                },
            };
            let weighted = match scaled.checked_mul(thr as i128) {
                Some(v) => v,
                None => {
                    return Err(TicketError::ArithmeticOverflow);
                },
            };
            let increase = div_trunc(weighted, BPS_DENOMINATOR);
            match base.checked_add(increase) {
                Some(v) => v,
                None => {
                    return Err(TicketError::ArithmeticOverflow);
                },
            }
        },
        PricingStrategy::TimeDecay => {
            let window_start: u64 = if event.start_time >= EARLY_BIRD_WINDOW_SECONDS {
                event.start_time - EARLY_BIRD_WINDOW_SECONDS
            } else {
                0
            };
            if now < window_start {
                let scaled = match base.checked_mul(EARLY_BIRD_DISCOUNT_BPS) {
                    Some(v) => v,
                    None => {
                        return Err(TicketError::ArithmeticOverflow);
                    },
                };
                let discount = div_trunc(scaled, BPS_DENOMINATOR);
                match base.checked_sub(discount) {
                    Some(v) => v,
                    None => {
                        return Err(TicketError::ArithmeticOverflow);
                    },
                }
            } else {
                base
            }
        },
        PricingStrategy::AbTestA => {
            let thr = demand_thresholds(tier.minted, tier.max_supply);
            let scaled = match base.checked_mul(PRICE_INCREASE_BPS * 2) {
                Some(v) => v,
                None => {
                    return Err(TicketError::ArithmeticOverflow);
                },
            };
            let weighted = match scaled.checked_mul(thr as i128) {
                Some(v) => v,
                None => {
                    return Err(TicketError::ArithmeticOverflow);
                },
            };
            let increase = div_trunc(weighted, BPS_DENOMINATOR);
            match base.checked_add(increase) {
                Some(v) => v,
                None => {
                    return Err(TicketError::ArithmeticOverflow);
                },
            }
        },
        PricingStrategy::AbTestB => {
            let scaled = match base.checked_mul(FLAT_MARKUP_BPS) {
                Some(v) => v,
                None => {
                    return Err(TicketError::ArithmeticOverflow);
                },
            };
            let markup = div_trunc(scaled, BPS_DENOMINATOR);
            match base.checked_add(markup) {
                Some(v) => v,
                None => {
                    return Err(TicketError::ArithmeticOverflow);
                },
            }
        },
    };
    let multiplier = match oracle_multiplier(&oracle, config.oracle_reference_price) {
        Ok(m) => m,
        Err(e) => {
            return Err(e);
        },
    };
    let scaled_price = match adjusted.checked_mul(multiplier) {
        Some(v) => v,
        None => {
            return Err(TicketError::ArithmeticOverflow);
        },
    };
    let unbounded = div_trunc(scaled_price, ORACLE_PRECISION);
    let raised = if unbounded >= config.price_floor {
        unbounded
    } else {
        config.price_floor
    };
    let bounded = if raised <= config.price_ceiling {
        raised
    } else {
        config.price_ceiling
    };
    Ok(bounded)
}

/// Law: total unavailability of both price sources makes the computed price
/// exactly the price computed with the neutral multiplier — pricing stays
/// available when every external feed is down.
pub proof fn lemma_unavailable_is_neutral(
    tier: Tier,
    config: PricingConfig,
    event_start: u64,
    now: u64,
)
    ensures
        multiplier_of(None, config.oracle_reference_price as int) == ORACLE_PRECISION as int,
        computed_price(tier, config, event_start, now, None) == computed_price_with_multiplier(
            tier,
            config,
            event_start,
            now,
            ORACLE_PRECISION as int,
        ),
{
}

} // verus!
