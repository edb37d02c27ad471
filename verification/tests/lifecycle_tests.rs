//! Tests of the ticket issuance / refund / validation state machine.

use soulbound_tickets::errors::TicketError;
use soulbound_tickets::lifecycle::SoulboundTicketContract;
use soulbound_tickets::oracle::{DEFAULT_STALENESS_SECONDS, DIA_ORACLE_DECIMALS};
use soulbound_tickets::pricing::{PricingConfig, PricingStrategy};

const GA: u64 = 1;
const VIP: u64 = 2;
const START: u64 = 10_000_000;
const CUTOFF: u64 = 9_000_000;

fn setup() -> SoulboundTicketContract {
    let mut s = SoulboundTicketContract::initialize(START, CUTOFF, 1_000);
    s.add_tier(GA, "General Admission".to_string(), 1000, 10, PricingStrategy::Standard)
        .unwrap();
    s
}

#[test]
fn test_initialize_defaults() {
    let s = SoulboundTicketContract::initialize(START, CUTOFF, 1_000);
    assert_eq!(s.event.start_time, START);
    assert_eq!(s.event.refund_cutoff_time, CUTOFF);
    assert_eq!(s.config.price_floor, 0);
    assert_eq!(s.config.price_ceiling, i128::MAX);
    assert_eq!(s.config.update_frequency, 3600);
    assert_eq!(s.config.last_update_time, 1_000);
    assert!(!s.config.is_frozen);
    assert_eq!(s.config.oracle_pair, "XLM/USD");
    assert_eq!(s.config.oracle_reference_price, DIA_ORACLE_DECIMALS);
    assert_eq!(s.config.max_oracle_age_seconds, DEFAULT_STALENESS_SECONDS);
    assert!(s.tiers.is_empty());
    assert!(s.tickets.is_empty());
}

#[test]
fn test_add_tier_rejects_duplicate() {
    let mut s = setup();
    let r = s.add_tier(GA, "Again".to_string(), 5, 5, PricingStrategy::AbTestB);
    assert_eq!(r, Err(TicketError::TierAlreadyExists));
    assert_eq!(s.tiers.len(), 1);
    assert_eq!(s.tiers[0].base_price, 1000);
    // A different identifier is fine.
    s.add_tier(VIP, "VIP".to_string(), 5000, 3, PricingStrategy::AbTestB).unwrap();
    assert_eq!(s.tiers.len(), 2);
    assert!(s.tiers[1].active);
    assert_eq!(s.tiers[1].minted, 0);
    assert_eq!(s.tiers[1].current_price, 5000);
}

#[test]
fn test_batch_mint_sequential_ids() {
    let mut s = setup();
    s.batch_mint(GA, 5, 2_000).unwrap();
    // Five independent records at price 0, token ids 1..=5 strictly
    // increasing, all valid.
    assert_eq!(s.tickets.len(), 5);
    for id in 1..=5u32 {
        assert!(s.validate_ticket(id));
        let t = s.get_ticket(id).unwrap();
        assert_eq!(t.price_paid, 0);
        assert_eq!(t.tier_symbol, GA);
        assert_eq!(t.purchase_time, 2_000);
    }
    assert!(!s.validate_ticket(6));
    assert_eq!(s.tiers[0].minted, 5);
    // A subsequent purchase takes the next id: no duplicates across batch
    // mints and purchases.
    let id = s.purchase(GA, 2_100, 1234).unwrap();
    assert_eq!(id, 6);
    assert!(s.validate_ticket(6));
    assert_eq!(s.get_ticket(6).unwrap().price_paid, 1234);
}

#[test]
fn test_batch_mint_respects_supply_cap() {
    let mut s = setup();
    s.batch_mint(GA, 7, 2_000).unwrap();
    let r = s.batch_mint(GA, 4, 2_001);
    assert_eq!(r, Err(TicketError::SupplyExceeded));
    assert_eq!(s.tiers[0].minted, 7);
    assert_eq!(s.tickets.len(), 7);
    s.batch_mint(GA, 3, 2_002).unwrap();
    assert_eq!(s.tiers[0].minted, 10);
    // The cap holds afterwards: nothing more can be minted or purchased.
    assert_eq!(s.batch_mint(GA, 1, 2_003), Err(TicketError::SupplyExceeded));
    assert_eq!(s.purchase(GA, 2_004, 1000), Err(TicketError::TierSoldOut));
    assert_eq!(s.tiers[0].minted, 10);
}

#[test]
fn test_batch_mint_unknown_tier() {
    let mut s = setup();
    assert_eq!(s.batch_mint(99, 1, 2_000), Err(TicketError::TierNotFound));
    assert!(s.tickets.is_empty());
}

#[test]
fn test_purchase_flow() {
    let mut s = setup();
    s.batch_mint(GA, 2, 2_000).unwrap();
    // One demand threshold passed: the quote is 1050.
    let quoted = s.purchase_quote(GA, 2_100, None).unwrap();
    assert_eq!(quoted, 1050);
    // The host settles the payment of 1050, then the purchase commits.
    let id = s.purchase(GA, 2_100, quoted).unwrap();
    assert_eq!(id, 3);
    assert_eq!(s.tiers[0].minted, 3);
    assert_eq!(s.tiers[0].current_price, 1050);
    assert_eq!(s.config.last_update_time, 2_100);
    let t = s.get_ticket(3).unwrap();
    assert_eq!(t.price_paid, 1050);
    assert!(t.is_valid);
}

#[test]
fn test_purchase_inactive_tier_fails_unchanged() {
    let mut s = setup();
    s.tiers[0].active = false;
    let minted_before = s.tiers[0].minted;
    let price_before = s.tiers[0].current_price;
    // The quote fails before any payment would be attempted, and the commit
    // fails without touching counters or prices.
    assert_eq!(s.purchase_quote(GA, 2_000, None), Err(TicketError::TierInactive));
    assert_eq!(s.purchase(GA, 2_000, 1000), Err(TicketError::TierInactive));
    assert_eq!(s.tiers[0].minted, minted_before);
    assert_eq!(s.tiers[0].current_price, price_before);
    assert!(s.tickets.is_empty());
}

#[test]
fn test_purchase_sold_out_fails_unchanged() {
    let mut s = setup();
    s.batch_mint(GA, 10, 2_000).unwrap();
    let price_before = s.tiers[0].current_price;
    assert_eq!(s.purchase_quote(GA, 2_100, None), Err(TicketError::TierSoldOut));
    assert_eq!(s.purchase(GA, 2_100, 1000), Err(TicketError::TierSoldOut));
    assert_eq!(s.tiers[0].minted, 10);
    assert_eq!(s.tiers[0].current_price, price_before);
    assert_eq!(s.tickets.len(), 10);
}

#[test]
fn test_purchase_unknown_tier() {
    let mut s = setup();
    assert_eq!(s.purchase_quote(99, 2_000, None), Err(TicketError::TierNotFound));
    assert_eq!(s.purchase(99, 2_000, 1000), Err(TicketError::TierNotFound));
}

#[test]
fn test_refund_flow() {
    let mut s = setup();
    s.batch_mint(GA, 2, 2_000).unwrap();
    let quoted = s.purchase_quote(GA, 2_100, None).unwrap();
    let id = s.purchase(GA, 2_100, quoted).unwrap();
    let refunded = s.refund(id, 3_000, true).unwrap();
    assert_eq!(refunded, 1050);
    assert!(!s.validate_ticket(id));
    assert!(!s.get_ticket(id).unwrap().is_valid);
    // The record keeps its payment data; only validity flips; tiers keep
    // their counters (minted is monotonic).
    assert_eq!(s.get_ticket(id).unwrap().price_paid, 1050);
    assert_eq!(s.tiers[0].minted, 3);
}

#[test]
fn test_double_refund_fails_second_time() {
    let mut s = setup();
    s.batch_mint(GA, 1, 2_000).unwrap();
    assert_eq!(s.refund(1, 3_000, true), Ok(0));
    let r = s.refund(1, 3_001, true);
    assert_eq!(r, Err(TicketError::TicketAlreadyInvalid));
    // The failed attempt changes nothing: validity and payment state stand.
    let t = s.get_ticket(1).unwrap();
    assert!(!t.is_valid);
    assert_eq!(t.price_paid, 0);
    assert_eq!(s.tickets.len(), 1);
}

#[test]
fn test_refund_window_boundary_inclusive() {
    let mut s = setup();
    s.batch_mint(GA, 2, 2_000).unwrap();
    // One second past the cutoff: refused, ticket untouched.
    assert_eq!(s.refund(1, CUTOFF + 1, true), Err(TicketError::RefundWindowClosed));
    assert!(s.validate_ticket(1));
    // At exactly the cutoff: accepted.
    assert_eq!(s.refund(1, CUTOFF, true), Ok(0));
    assert!(!s.validate_ticket(1));
}

#[test]
fn test_refund_requires_ownership() {
    let mut s = setup();
    s.batch_mint(GA, 1, 2_000).unwrap();
    assert_eq!(s.refund(1, 3_000, false), Err(TicketError::NotTicketOwner));
    assert!(s.validate_ticket(1));
}

#[test]
fn test_refund_unknown_ticket() {
    let mut s = setup();
    s.batch_mint(GA, 1, 2_000).unwrap();
    assert_eq!(s.refund(0, 3_000, true), Err(TicketError::TicketNotFound));
    assert_eq!(s.refund(99, 3_000, true), Err(TicketError::TicketNotFound));
}

#[test]
fn test_validate_unknown_ticket_is_false() {
    let s = setup();
    assert!(!s.validate_ticket(0));
    assert!(!s.validate_ticket(1));
    assert_eq!(s.get_ticket(1), None);
}

#[test]
fn test_set_pricing_config_replaces_wholesale() {
    let mut s = setup();
    let cfg = PricingConfig {
        oracle_address: "CCYOZ".to_string(),
        dex_pool_address: "CCSSO".to_string(),
        price_floor: 500,
        price_ceiling: 900,
        update_frequency: 60,
        last_update_time: 7,
        is_frozen: false,
        oracle_pair: "BTC/USD".to_string(),
        oracle_reference_price: 42,
        max_oracle_age_seconds: 120,
    };
    s.set_pricing_config(cfg);
    assert_eq!(s.config.price_floor, 500);
    assert_eq!(s.config.price_ceiling, 900);
    assert_eq!(s.config.oracle_pair, "BTC/USD");
    assert_eq!(s.config.oracle_reference_price, 42);
}

#[test]
fn test_update_oracle_reference_only() {
    let mut s = setup();
    s.update_oracle_reference(250_000_000);
    assert_eq!(s.config.oracle_reference_price, 250_000_000);
    assert_eq!(s.config.price_floor, 0);
    assert_eq!(s.config.max_oracle_age_seconds, DEFAULT_STALENESS_SECONDS);
    assert!(!s.config.is_frozen);
}

#[test]
fn test_emergency_freeze_pins_price() {
    let mut s = setup();
    s.batch_mint(GA, 2, 2_000).unwrap();
    let quoted = s.purchase_quote(GA, 2_100, None).unwrap();
    s.purchase(GA, 2_100, quoted).unwrap();
    s.emergency_freeze(true);
    assert!(s.config.is_frozen);
    // Frozen: the query answers the recorded price, demand notwithstanding.
    assert_eq!(s.get_ticket_price(GA, 5_000, None), Ok(1050));
    s.emergency_freeze(false);
    // Unfrozen: 3 of 10 minted passes one threshold.
    assert_eq!(s.get_ticket_price(GA, 5_000, None), Ok(1050));
    s.batch_mint(GA, 1, 5_100).unwrap();
    // 4 of 10 minted: two thresholds, +10%.
    assert_eq!(s.get_ticket_price(GA, 5_200, None), Ok(1100));
}

#[test]
fn test_get_ticket_price_unknown_tier() {
    let s = setup();
    assert_eq!(s.get_ticket_price(99, 2_000, None), Err(TicketError::TierNotFound));
}

#[test]
fn test_error_messages_name_the_invariant() {
    assert_eq!(TicketError::TierSoldOut.message(), "Tier sold out");
    assert_eq!(TicketError::RefundWindowClosed.message(), "Refund window closed");
    assert_eq!(TicketError::TierAlreadyExists.message(), "Tier already exists");
    assert_eq!(TicketError::TicketAlreadyInvalid.message(), "Ticket already invalidated");
    assert_eq!(TicketError::NotTicketOwner.message(), "Not the ticket owner");
    assert_eq!(TicketError::TierInactive.message(), "Tier is not active");
}
