//! The ticket issuance, refund and validation state machine.
//!
//! The contract's whole persistent state is modelled as one aggregate of
//! plain values: event timing, the pricing configuration, the tier records
//! and the ticket records. Token ids are assigned 1, 2, 3, … in mint order —
//! the id of a ticket is its position in the ticket log plus one — so ids are
//! strictly increasing and never reused, even across refunds (a refund only
//! invalidates; it never removes a record).
//!
//! The host performs authorization, payment transfer and token-ledger
//! bookkeeping around these operations; every decision about the state
//! itself is made and verified here.

use crate::errors::TicketError;
use crate::oracle::{OracleResult, DEFAULT_STALENESS_SECONDS, DIA_ORACLE_DECIMALS};
use crate::pricing::{
    compute_price, computed_price, price_fits, EventInfo, PricingConfig, PricingStrategy, Tier,
};
use vstd::prelude::*;
use vstd::string::StringExecFns;

verus! {

/// One issued ticket, keyed by its numeric token id. Created at mint time
/// with `is_valid = true`; `is_valid` flips to `false` exactly once, on
/// refund.
#[derive(Clone, Copy, PartialEq, Eq, Structural, Debug)]
pub struct Ticket {
    /// Identifier of the tier the ticket was minted from.
    pub tier_symbol: u64,
    /// Ledger time at which the ticket was minted.
    pub purchase_time: u64,
    /// The price actually charged (0 for administrative batch mints).
    pub price_paid: i128,
    /// Whether the ticket is still valid (not refunded).
    pub is_valid: bool,
}

/// Some tier in the sequence carries this identifier.
pub open spec fn has_tier(tiers: Seq<Tier>, symbol: u64) -> bool {
    exists|i: int| 0 <= i < tiers.len() && tiers[i].symbol == symbol
}

/// The position of the tier carrying this identifier (unique when the
/// identifiers are unique).
pub open spec fn tier_index(tiers: Seq<Tier>, symbol: u64) -> int {
    choose|i: int| 0 <= i < tiers.len() && tiers[i].symbol == symbol
}

/// No two tiers share an identifier.
pub open spec fn tier_symbols_unique(tiers: Seq<Tier>) -> bool {
    forall|i: int, j: int|
        0 <= i < j < tiers.len() ==> tiers[i].symbol != tiers[j].symbol
}

/// Every tier's minted count respects its supply cap.
pub open spec fn supply_respected(tiers: Seq<Tier>) -> bool {
    forall|i: int|
        0 <= i < tiers.len() ==> (#[trigger] tiers[i]).minted <= tiers[i].max_supply
}

/// The tier record a tier creation produces: active, nothing minted, the
/// current price starting at the base price.
pub open spec fn new_tier(
    symbol: u64,
    name: String,
    base_price: i128,
    max_supply: u32,
    strategy: PricingStrategy,
) -> Tier {
    Tier {
        symbol,
        name,
        base_price,
        current_price: base_price,
        max_supply,
        minted: 0,
        active: true,
        strategy,
    }
}

/// A tier after one completed purchase: one more minted, the charged price
/// recorded as the new current price.
pub open spec fn tier_after_sale(t: Tier, price: i128) -> Tier {
    Tier {
        symbol: t.symbol,
        name: t.name,
        base_price: t.base_price,
        current_price: price,
        max_supply: t.max_supply,
        minted: (t.minted + 1) as u32,
        active: t.active,
        strategy: t.strategy,
    }
}

/// A tier after an administrative batch mint of `amount` tickets.
pub open spec fn tier_after_batch(t: Tier, amount: u32) -> Tier {
    Tier {
        symbol: t.symbol,
        name: t.name,
        base_price: t.base_price,
        current_price: t.current_price,
        max_supply: t.max_supply,
        minted: (t.minted + amount) as u32,
        active: t.active,
        strategy: t.strategy,
    }
}

/// The configuration with only its last-update timestamp replaced.
pub open spec fn config_with_update_time(c: PricingConfig, now: u64) -> PricingConfig {
    PricingConfig {
        oracle_address: c.oracle_address,
        dex_pool_address: c.dex_pool_address,
        price_floor: c.price_floor,
        price_ceiling: c.price_ceiling,
        update_frequency: c.update_frequency,
        last_update_time: now,
        is_frozen: c.is_frozen,
        oracle_pair: c.oracle_pair,
        oracle_reference_price: c.oracle_reference_price,
        max_oracle_age_seconds: c.max_oracle_age_seconds,
    }
}

/// The configuration with only its oracle reference price replaced.
pub open spec fn config_with_reference(c: PricingConfig, reference: i128) -> PricingConfig {
    PricingConfig {
        oracle_address: c.oracle_address,
        dex_pool_address: c.dex_pool_address,
        price_floor: c.price_floor,
        price_ceiling: c.price_ceiling,
        update_frequency: c.update_frequency,
        last_update_time: c.last_update_time,
        is_frozen: c.is_frozen,
        oracle_pair: c.oracle_pair,
        oracle_reference_price: reference,
        max_oracle_age_seconds: c.max_oracle_age_seconds,
    }
}

/// The configuration with only its freeze flag replaced.
pub open spec fn config_with_frozen(c: PricingConfig, frozen: bool) -> PricingConfig {
    PricingConfig {
        oracle_address: c.oracle_address,
        dex_pool_address: c.dex_pool_address,
        price_floor: c.price_floor,
        price_ceiling: c.price_ceiling,
        update_frequency: c.update_frequency,
        last_update_time: c.last_update_time,
        is_frozen: frozen,
        oracle_pair: c.oracle_pair,
        oracle_reference_price: c.oracle_reference_price,
        max_oracle_age_seconds: c.max_oracle_age_seconds,
    }
}

/// The ticket record a mint at time `now` and price `price` produces.
pub open spec fn fresh_ticket(symbol: u64, now: u64, price: i128) -> Ticket {
    Ticket { tier_symbol: symbol, purchase_time: now, price_paid: price, is_valid: true }
}

/// The same ticket, invalidated.
pub open spec fn invalidated(t: Ticket) -> Ticket {
    Ticket {
        tier_symbol: t.tier_symbol,
        purchase_time: t.purchase_time,
        price_paid: t.price_paid,
        is_valid: false,
    }
}

/// Token id `token_id` names a minted ticket: ids run 1..=len of the log.
pub open spec fn ticket_exists(tickets: Seq<Ticket>, token_id: u32) -> bool {
    1 <= token_id <= tickets.len()
}

/// The ticket record behind a token id.
pub open spec fn ticket_at(tickets: Seq<Ticket>, token_id: u32) -> Ticket {
    tickets[token_id - 1]
}

/// A token id names a ticket that exists and is still valid.
pub open spec fn ticket_valid(tickets: Seq<Ticket>, token_id: u32) -> bool {
    ticket_exists(tickets, token_id) && ticket_at(tickets, token_id).is_valid
}

/// When a refund goes through: the caller owns the token, the current time
/// is at or before the cutoff (the boundary is inclusive), and the ticket
/// exists and was not refunded before.
pub open spec fn refund_allowed(
    tickets: Seq<Ticket>,
    token_id: u32,
    now: u64,
    cutoff: u64,
    caller_is_owner: bool,
) -> bool {
    &&& caller_is_owner
    &&& now <= cutoff
    &&& ticket_exists(tickets, token_id)
    &&& ticket_at(tickets, token_id).is_valid
}

/// The ticket log after a refund of `token_id`: that ticket invalidated,
/// every other record untouched.
pub open spec fn refund_applied(tickets: Seq<Ticket>, token_id: u32) -> Seq<Ticket> {
    tickets.update(token_id - 1, invalidated(ticket_at(tickets, token_id)))
}

/// How many tickets in the log were minted from the tier carrying `symbol`.
pub open spec fn minted_count(tickets: Seq<Ticket>, symbol: u64) -> int
    decreases tickets.len(),
{
    if tickets.len() == 0 {
        0
    } else {
        minted_count(tickets.drop_last(), symbol) + if tickets.last().tier_symbol == symbol {
            1int
        } else {
            0int
        }
    }
}

/// Appending a ticket raises the count of its own tier by one and of every
/// other tier by nothing.
proof fn lemma_minted_count_push(tickets: Seq<Ticket>, t: Ticket, symbol: u64)
    ensures
        minted_count(tickets.push(t), symbol) == minted_count(tickets, symbol) + if t.tier_symbol
            == symbol {
            1int
        } else {
            0int
        },
{
    assert(tickets.push(t).drop_last() =~= tickets);
    assert(tickets.push(t).last() == t);
}

/// Replacing a ticket by one of the same tier leaves every count unchanged.
proof fn lemma_minted_count_update_keeps_symbol(
    tickets: Seq<Ticket>,
    i: int,
    t: Ticket,
    symbol: u64,
)
    requires
        0 <= i < tickets.len(),
        tickets[i].tier_symbol == t.tier_symbol,
    ensures
        minted_count(tickets.update(i, t), symbol) == minted_count(tickets, symbol),
    decreases tickets.len(),
{
    if i == tickets.len() - 1 {
        assert(tickets.update(i, t).drop_last() =~= tickets.drop_last());
        assert(tickets.update(i, t).last() == t);
    } else {
        assert(tickets.update(i, t).drop_last() =~= tickets.drop_last().update(i, t));
        assert(tickets.update(i, t).last() == tickets.last());
        lemma_minted_count_update_keeps_symbol(tickets.drop_last(), i, t, symbol);
    }
}

/// A tier no ticket was minted from counts zero tickets.
proof fn lemma_minted_count_absent(tickets: Seq<Ticket>, symbol: u64)
    requires
        forall|k: int| 0 <= k < tickets.len() ==> (#[trigger] tickets[k]).tier_symbol != symbol,
    ensures
        minted_count(tickets, symbol) == 0,
    decreases tickets.len(),
{
    if tickets.len() > 0 {
        lemma_minted_count_absent(tickets.drop_last(), symbol);
    }
}

/// When a purchase from a tier goes through: the tier exists, is active, has
/// remaining supply, and a fresh token id is available.
pub open spec fn purchase_allowed(tiers: Seq<Tier>, tickets: Seq<Ticket>, symbol: u64) -> bool {
    &&& has_tier(tiers, symbol)
    &&& tiers[tier_index(tiers, symbol)].active
    &&& tiers[tier_index(tiers, symbol)].minted < tiers[tier_index(tiers, symbol)].max_supply
    &&& tickets.len() < u32::MAX as int
}

/// The whole persistent state of the soulbound ticket contract, as plain
/// values.
pub struct SoulboundTicketContract {
    /// Event timing; immutable after initialization.
    pub event: EventInfo,
    /// Global pricing configuration.
    pub config: PricingConfig,
    /// Tier records, keyed by their unique identifiers.
    pub tiers: Vec<Tier>,
    /// Ticket records in mint order; the record of token id `n` sits at
    /// position `n - 1`.
    pub tickets: Vec<Ticket>,
}

/// When the tier identifier is unique, `tier_index` is the one position that
/// carries it.
proof fn lemma_tier_index(tiers: Seq<Tier>, symbol: u64)
    requires
        tier_symbols_unique(tiers),
        has_tier(tiers, symbol),
    ensures
        0 <= tier_index(tiers, symbol) < tiers.len(),
        tiers[tier_index(tiers, symbol)].symbol == symbol,
        forall|i: int|
            0 <= i < tiers.len() && tiers[i].symbol == symbol ==> i == tier_index(tiers, symbol),
{
    let ti = tier_index(tiers, symbol);
    assert(0 <= ti < tiers.len() && tiers[ti].symbol == symbol);
    assert forall|i: int|
        0 <= i < tiers.len() && tiers[i].symbol == symbol implies i == tier_index(
        tiers,
        symbol,
    ) by {
        if i < ti {
            assert(tiers[i].symbol != tiers[ti].symbol);
        } else if i > ti {
            assert(tiers[ti].symbol != tiers[i].symbol);
        }
    }
}

impl SoulboundTicketContract {
    /// The state's structural invariant, established at initialization and
    /// preserved by every operation: tier identifiers are unique, no tier
    /// has minted past its cap, the ticket log leaves room for the 32-bit
    /// token id space, every ticket was minted from a tier that exists, and
    /// each tier's `minted` counter is exactly the number of its tickets in
    /// the log.
    pub open spec fn wf(self) -> bool {
        &&& tier_symbols_unique(self.tiers@)
        &&& supply_respected(self.tiers@)
        &&& self.tickets@.len() <= u32::MAX as int
        &&& forall|k: int|
            0 <= k < self.tickets@.len() ==> has_tier(
                self.tiers@,
                (#[trigger] self.tickets@[k]).tier_symbol,
            )
        &&& forall|i: int|
            0 <= i < self.tiers@.len() ==> (#[trigger] self.tiers@[i]).minted as int
                == minted_count(self.tickets@, self.tiers@[i].symbol)
    }

    /// Create the contract state: the event timing as given, no tiers, no
    /// tickets, and a default pricing configuration (no bounds, unfrozen,
    /// a 1.0 oracle baseline, the default staleness window, and placeholder
    /// endpoint text to be replaced by `set_pricing_config`).
    pub fn initialize(start_time: u64, refund_cutoff_time: u64, now: u64) -> (r:
        SoulboundTicketContract)
        ensures
            r.wf(),
            r.event == (EventInfo { start_time, refund_cutoff_time }),
            r.config.oracle_address@.len() == 0,
            r.config.dex_pool_address@.len() == 0,
            r.config.price_floor == 0,
            r.config.price_ceiling == i128::MAX,
            r.config.update_frequency == 3600,
            r.config.last_update_time == now,
            !r.config.is_frozen,
            r.config.oracle_pair@ == "XLM/USD"@,
            r.config.oracle_reference_price == DIA_ORACLE_DECIMALS,
            r.config.max_oracle_age_seconds == DEFAULT_STALENESS_SECONDS,
            r.tiers@.len() == 0,
            r.tickets@.len() == 0,
    {
        SoulboundTicketContract {
            event: EventInfo { start_time, refund_cutoff_time },
            config: PricingConfig {
                oracle_address: String::new(),
                dex_pool_address: String::new(),
                price_floor: 0,
                price_ceiling: i128::MAX,
                update_frequency: 3600,
                last_update_time: now,
                is_frozen: false,
                oracle_pair: String::from_str("XLM/USD"),
                oracle_reference_price: DIA_ORACLE_DECIMALS,
                max_oracle_age_seconds: DEFAULT_STALENESS_SECONDS,
            },
            tiers: Vec::new(),
            tickets: Vec::new(),
        }
    }

    /// Replace the pricing configuration wholesale.
    pub fn set_pricing_config(&mut self, config: PricingConfig)
        ensures
            final(self).config == config,
            final(self).event == old(self).event,
            final(self).tiers@ == old(self).tiers@,
            final(self).tickets@ == old(self).tickets@,
            old(self).wf() ==> final(self).wf(),
    {
        self.config = config;
    }

    /// Re-baseline the oracle reference price; every other field keeps its
    /// value.
    pub fn update_oracle_reference(&mut self, new_reference_price: i128)
        ensures
            final(self).config == config_with_reference(old(self).config, new_reference_price),
            final(self).event == old(self).event,
            final(self).tiers@ == old(self).tiers@,
            final(self).tickets@ == old(self).tickets@,
            old(self).wf() ==> final(self).wf(),
    {
        self.config.oracle_reference_price = new_reference_price;
    }

    /// Toggle the emergency freeze; every other field keeps its value.
    pub fn emergency_freeze(&mut self, freeze: bool)
        ensures
            final(self).config == config_with_frozen(old(self).config, freeze),
            final(self).event == old(self).event,
            final(self).tiers@ == old(self).tiers@,
            final(self).tickets@ == old(self).tickets@,
            old(self).wf() ==> final(self).wf(),
    {
        self.config.is_frozen = freeze;
    }

    /// Find the position of the tier carrying `symbol`.
    fn find_tier(&self, symbol: u64) -> (r: Option<usize>)
        ensures
            r is Some ==> r->Some_0 < self.tiers@.len() && self.tiers@[
                r->Some_0 as int
            ].symbol == symbol,
            r is None ==> !has_tier(self.tiers@, symbol),
            r is Some ==> has_tier(self.tiers@, symbol),
    {
        let n = self.tiers.len();
        let mut i: usize = 0;
        while i < n
            invariant
                n == self.tiers@.len(),
                i <= n,
                forall|k: int| 0 <= k < i ==> self.tiers@[k].symbol != symbol,
            decreases n - i,
        {
            if self.tiers[i].symbol == symbol {
                return Some(i);
            }
            i = i + 1;
        }
        None
    }

    /// Create a tier. Fails if and only if the identifier is already taken;
    /// the new tier starts active with nothing minted and its current price
    /// at the base price.
    pub fn add_tier(
        &mut self,
        symbol: u64,
        name: String,
        base_price: i128,
        max_supply: u32,
        strategy: PricingStrategy,
    ) -> (r: Result<(), TicketError>)
        requires
            old(self).wf(),
        ensures
            final(self).wf(),
            r is Ok <==> !has_tier(old(self).tiers@, symbol),
            r is Err ==> r->Err_0 == TicketError::TierAlreadyExists && *final(self) == *old(self),
            r is Ok ==> final(self).tiers@ == old(self).tiers@.push(
                new_tier(symbol, name, base_price, max_supply, strategy),
            ),
            r is Ok ==> final(self).event == old(self).event && final(self).config == old(
                self,
            ).config && final(self).tickets@ == old(self).tickets@,
    {
        if self.find_tier(symbol).is_some() {
            return Err(TicketError::TierAlreadyExists);
        }
        self.tiers.push(
            Tier {
                symbol,
                name,
                base_price,
                current_price: base_price,
                max_supply,
                minted: 0,
                active: true,
                strategy,
            },
        );
        proof {
            let pre_tiers = old(self).tiers@;
            let tks = self.tickets@;
            assert forall|k: int| 0 <= k < tks.len() implies has_tier(
                self.tiers@,
                (#[trigger] tks[k]).tier_symbol,
            ) by {
                let sym = tks[k].tier_symbol;
                assert(has_tier(pre_tiers, sym));
                let i = choose|i: int| 0 <= i < pre_tiers.len() && pre_tiers[i].symbol == sym;
                assert(self.tiers@[i].symbol == sym);
            }
            assert forall|k: int| 0 <= k < tks.len() implies (#[trigger] tks[k]).tier_symbol
                != symbol by {
                if tks[k].tier_symbol == symbol {
                    assert(has_tier(pre_tiers, symbol));
                }
            }
            lemma_minted_count_absent(tks, symbol);
            assert forall|i: int| 0 <= i < self.tiers@.len() implies (#[trigger] self.tiers@[
                i
            ]).minted as int == minted_count(tks, self.tiers@[i].symbol) by {
                if i < pre_tiers.len() {
                    assert(self.tiers@[i] == pre_tiers[i]);
                }
            }
        }
        Ok(())
    }

    /// Current unit price of a tier, for read-only queries: the price
    /// computation of the pricing module applied to the tier's record, the
    /// configuration, and the oracle resolution outcome the host fetched.
    /// Side-effect-free; only a completed purchase commits a price.
    pub fn get_ticket_price(&self, tier_symbol: u64, now: u64, oracle: Option<OracleResult>) -> (r:
        Result<i128, TicketError>)
        requires
            self.wf(),
        ensures
            !has_tier(self.tiers@, tier_symbol) ==> r is Err && r->Err_0
                == TicketError::TierNotFound,
            has_tier(self.tiers@, tier_symbol) ==> {
                let t = self.tiers@[tier_index(self.tiers@, tier_symbol)];
                &&& (self.config.is_frozen ==> r == Ok::<i128, TicketError>(t.current_price))
                &&& (!self.config.is_frozen ==> (r is Ok <==> price_fits(
                    t,
                    self.config,
                    self.event.start_time,
                    now,
                    oracle,
                )))
                &&& (!self.config.is_frozen && r is Ok ==> r->Ok_0 == computed_price(
                    t,
                    self.config,
                    self.event.start_time,
                    now,
                    oracle,
                ))
                &&& (r is Err ==> r->Err_0 == TicketError::ArithmeticOverflow)
            },
    {
        let idx = match self.find_tier(tier_symbol) {
            Some(i) => i,
            None => {
                return Err(TicketError::TierNotFound);
            },
        };
        proof {
            lemma_tier_index(self.tiers@, tier_symbol);
        }
        compute_price(&self.tiers[idx], &self.config, &self.event, now, oracle)
    }

    /// The price a purchase from this tier would be charged right now, with
    /// the purchase-side guards applied first: the tier must exist, be
    /// active, and have remaining supply. Side-effect-free: the payment
    /// transfer settles between this quote and the purchase commit.
    pub fn purchase_quote(&self, tier_symbol: u64, now: u64, oracle: Option<OracleResult>) -> (r:
        Result<i128, TicketError>)
        requires
            self.wf(),
        ensures
            !has_tier(self.tiers@, tier_symbol) ==> r is Err && r->Err_0
                == TicketError::TierNotFound,
            has_tier(self.tiers@, tier_symbol) ==> {
                let t = self.tiers@[tier_index(self.tiers@, tier_symbol)];
                &&& (!t.active ==> r is Err && r->Err_0 == TicketError::TierInactive)
                &&& (t.active && t.minted >= t.max_supply ==> r is Err && r->Err_0
                    == TicketError::TierSoldOut)
                &&& (t.active && t.minted < t.max_supply ==> {
                    &&& (self.config.is_frozen ==> r == Ok::<i128, TicketError>(t.current_price))
                    &&& (!self.config.is_frozen ==> (r is Ok <==> price_fits(
                        t,
                        self.config,
                        self.event.start_time,
                        now,
                        oracle,
                    )))
                    &&& (!self.config.is_frozen && r is Ok ==> r->Ok_0 == computed_price(
                        t,
                        self.config,
                        self.event.start_time,
                        now,
                        oracle,
                    ))
                    &&& (r is Err ==> r->Err_0 == TicketError::ArithmeticOverflow)
                })
            },
    {
        let idx = match self.find_tier(tier_symbol) {
            Some(i) => i,
            None => {
                return Err(TicketError::TierNotFound);
            },
        };
        proof {
            lemma_tier_index(self.tiers@, tier_symbol);
        }
        if !self.tiers[idx].active {
            return Err(TicketError::TierInactive);
        }
        if self.tiers[idx].minted >= self.tiers[idx].max_supply {
            return Err(TicketError::TierSoldOut);
        }
        compute_price(&self.tiers[idx], &self.config, &self.event, now, oracle)
    }

    /// Commit a purchase whose payment of `price` the host has settled:
    /// mint one ticket to the next token id, record the charged price on the
    /// tier, and stamp the configuration's last update time. Fails — leaving
    /// the state exactly as it was — if the tier is missing, inactive or
    /// sold out, or the token id space is exhausted.
    pub fn purchase(&mut self, tier_symbol: u64, now: u64, price: i128) -> (r: Result<
        u32,
        TicketError,
    >)
        requires
            old(self).wf(),
        ensures
            final(self).wf(),
            r is Err ==> *final(self) == *old(self),
            r is Ok <==> purchase_allowed(old(self).tiers@, old(self).tickets@, tier_symbol),
            !has_tier(old(self).tiers@, tier_symbol) ==> r is Err && r->Err_0
                == TicketError::TierNotFound,
            has_tier(old(self).tiers@, tier_symbol) ==> {
                let t = old(self).tiers@[tier_index(old(self).tiers@, tier_symbol)];
                &&& (!t.active ==> r is Err && r->Err_0 == TicketError::TierInactive)
                &&& (t.active && t.minted >= t.max_supply ==> r is Err && r->Err_0
                    == TicketError::TierSoldOut)
                &&& (t.active && t.minted < t.max_supply && old(self).tickets@.len() >= u32::MAX
                    as int ==> r is Err && r->Err_0 == TicketError::TokenIdsExhausted)
            },
            r is Ok ==> {
                let ti = tier_index(old(self).tiers@, tier_symbol);
                &&& r->Ok_0 as int == old(self).tickets@.len() + 1
                &&& final(self).tickets@ == old(self).tickets@.push(
                    fresh_ticket(tier_symbol, now, price),
                )
                &&& final(self).tiers@ == old(self).tiers@.update(
                    ti,
                    tier_after_sale(old(self).tiers@[ti], price),
                )
                &&& final(self).config == config_with_update_time(old(self).config, now)
                &&& final(self).event == old(self).event
            },
    {
        let idx = match self.find_tier(tier_symbol) {
            Some(i) => i,
            None => {
                return Err(TicketError::TierNotFound);
            },
        };
        proof {
            lemma_tier_index(self.tiers@, tier_symbol);
        }
        if !self.tiers[idx].active {
            return Err(TicketError::TierInactive);
        }
        if self.tiers[idx].minted >= self.tiers[idx].max_supply {
            return Err(TicketError::TierSoldOut);
        }
        if self.tickets.len() >= u32::MAX as usize {
            return Err(TicketError::TokenIdsExhausted);
        }
        let token_id: u32 = (self.tickets.len() as u32) + 1;
        self.tickets.push(
            Ticket { tier_symbol, purchase_time: now, price_paid: price, is_valid: true },
        );
        let t = &mut self.tiers[idx];
        t.minted = t.minted + 1;
        t.current_price = price;
        self.config.last_update_time = now;
        proof {
            let pre = *old(self);
            let newt = fresh_ticket(tier_symbol, now, price);
            assert(self.tickets@ == pre.tickets@.push(newt));
            assert(self.tiers@ == pre.tiers@.update(
                idx as int,
                tier_after_sale(pre.tiers@[idx as int], price),
            ));
            assert forall|sym: u64| #[trigger] minted_count(self.tickets@, sym) == minted_count(
                pre.tickets@,
                sym,
            ) + (if sym == tier_symbol {
                1int
            } else {
                0int
            }) by {
                lemma_minted_count_push(pre.tickets@, newt, sym);
            }
            assert forall|k: int| 0 <= k < self.tickets@.len() implies has_tier(
                self.tiers@,
                (#[trigger] self.tickets@[k]).tier_symbol,
            ) by {
                let sym = self.tickets@[k].tier_symbol;
                if k < pre.tickets@.len() {
                    assert(has_tier(pre.tiers@, sym));
                    let i = choose|i: int| 0 <= i < pre.tiers@.len() && pre.tiers@[i].symbol
                        == sym;
                    assert(self.tiers@[i].symbol == sym);
                } else {
                    assert(self.tiers@[idx as int].symbol == sym);
                }
            }
            assert forall|i: int| 0 <= i < self.tiers@.len() implies (#[trigger] self.tiers@[
                i
            ]).minted as int == minted_count(self.tickets@, self.tiers@[i].symbol) by {
                if i != idx as int {
                    assert(self.tiers@[i] == pre.tiers@[i]);
                    if i < idx as int {
                        assert(pre.tiers@[i].symbol != pre.tiers@[idx as int].symbol);
                    } else {
                        assert(pre.tiers@[idx as int].symbol != pre.tiers@[i].symbol);
                    }
                }
            }
        }
        Ok(token_id)
    }

    /// Mint `amount` tickets of a tier to the organizer, free of charge:
    /// `amount` consecutive token ids, each an independent ticket record at
    /// price 0; the tier's minted count grows by `amount` once. Fails —
    /// leaving the state exactly as it was — if the tier is missing, the
    /// batch would exceed the supply cap, or the token id space is
    /// exhausted.
    pub fn batch_mint(&mut self, tier_symbol: u64, amount: u32, now: u64) -> (r: Result<
        (),
        TicketError,
    >)
        requires
            old(self).wf(),
        ensures
            final(self).wf(),
            r is Err ==> *final(self) == *old(self),
            !has_tier(old(self).tiers@, tier_symbol) ==> r is Err && r->Err_0
                == TicketError::TierNotFound,
            has_tier(old(self).tiers@, tier_symbol) ==> {
                let t = old(self).tiers@[tier_index(old(self).tiers@, tier_symbol)];
                &&& (r is Ok <==> t.minted + amount <= t.max_supply && old(self).tickets@.len()
                    + amount <= u32::MAX as int)
                &&& (t.minted + amount > t.max_supply ==> r is Err && r->Err_0
                    == TicketError::SupplyExceeded)
                &&& (t.minted + amount <= t.max_supply && old(self).tickets@.len() + amount
                    > u32::MAX as int ==> r is Err && r->Err_0 == TicketError::TokenIdsExhausted)
            },
            r is Ok ==> {
                let ti = tier_index(old(self).tiers@, tier_symbol);
                &&& final(self).tickets@ == old(self).tickets@ + Seq::new(
                    amount as nat,
                    (|j: int| fresh_ticket(tier_symbol, now, 0)),
                )
                &&& final(self).tiers@ == old(self).tiers@.update(
                    ti,
                    tier_after_batch(old(self).tiers@[ti], amount),
                )
                &&& final(self).config == old(self).config
                &&& final(self).event == old(self).event
            },
    {
        let idx = match self.find_tier(tier_symbol) {
            Some(i) => i,
            None => {
                return Err(TicketError::TierNotFound);
            },
        };
        proof {
            lemma_tier_index(self.tiers@, tier_symbol);
        }
        if amount > self.tiers[idx].max_supply - self.tiers[idx].minted {
            return Err(TicketError::SupplyExceeded);
        }
        if self.tickets.len() > (u32::MAX - amount) as usize {
            return Err(TicketError::TokenIdsExhausted);
        }
        let ghost pre = *self;
        let mut k: u32 = 0;
        while k < amount
            invariant
                k <= amount,
                pre.tickets@.len() + amount <= u32::MAX as int,
                self.tickets@ == pre.tickets@ + Seq::new(
                    k as nat,
                    (|j: int| fresh_ticket(tier_symbol, now, 0)),
                ),
                forall|sym: u64| #[trigger]
                    minted_count(self.tickets@, sym) == minted_count(pre.tickets@, sym) + (
                    if sym == tier_symbol {
                        k as int
                    } else {
                        0int
                    }),
                self.tiers@ == pre.tiers@,
                self.config == pre.config,
                self.event == pre.event,
            decreases amount - k,
        {
            let ghost before = self.tickets@;
            self.tickets.push(
                Ticket { tier_symbol, purchase_time: now, price_paid: 0, is_valid: true },
            );
            proof {
                assert(pre.tickets@ + Seq::new(
                    (k + 1) as nat,
                    (|j: int| fresh_ticket(tier_symbol, now, 0)),
                ) =~= (pre.tickets@ + Seq::new(
                    k as nat,
                    (|j: int| fresh_ticket(tier_symbol, now, 0)),
                )).push(fresh_ticket(tier_symbol, now, 0)));
                assert forall|sym: u64| #[trigger] minted_count(self.tickets@, sym)
                    == minted_count(pre.tickets@, sym) + (if sym == tier_symbol {
                    k + 1int
                } else {
                    0int
                }) by {
                    lemma_minted_count_push(before, fresh_ticket(tier_symbol, now, 0), sym);
                }
            }
            k = k + 1;
        }
        let t = &mut self.tiers[idx];
        t.minted = t.minted + amount;
        proof {
            assert(self.tiers@ == pre.tiers@.update(
                idx as int,
                tier_after_batch(pre.tiers@[idx as int], amount),
            ));
            assert forall|kk: int| 0 <= kk < self.tickets@.len() implies has_tier(
                self.tiers@,
                (#[trigger] self.tickets@[kk]).tier_symbol,
            ) by {
                let sym = self.tickets@[kk].tier_symbol;
                if kk < pre.tickets@.len() {
                    assert(self.tickets@[kk] == pre.tickets@[kk]);
                    assert(has_tier(pre.tiers@, sym));
                    let i = choose|i: int| 0 <= i < pre.tiers@.len() && pre.tiers@[i].symbol
                        == sym;
                    assert(self.tiers@[i].symbol == sym);
                } else {
                    assert(sym == tier_symbol);
                    assert(self.tiers@[idx as int].symbol == sym);
                }
            }
            assert forall|i: int| 0 <= i < self.tiers@.len() implies (#[trigger] self.tiers@[
                i
            ]).minted as int == minted_count(self.tickets@, self.tiers@[i].symbol) by {
                if i != idx as int {
                    assert(self.tiers@[i] == pre.tiers@[i]);
                    if i < idx as int {
                        assert(pre.tiers@[i].symbol != pre.tiers@[idx as int].symbol);
                    } else {
                        assert(pre.tiers@[idx as int].symbol != pre.tiers@[i].symbol);
                    }
                }
            }
        }
        Ok(())
    }

    /// Refund a ticket: hand back the price paid, invalidate the record.
    /// `caller_is_owner` is the host's answer to the token-ledger ownership
    /// check. Succeeds if and only if the caller owns the token, the time is
    /// at or before the refund cutoff (inclusive), and the ticket exists and
    /// is still valid; any failure leaves the state exactly as it was — in
    /// particular, a second refund of the same ticket always fails and
    /// changes nothing.
    pub fn refund(&mut self, token_id: u32, now: u64, caller_is_owner: bool) -> (r: Result<
        i128,
        TicketError,
    >)
        requires
            old(self).wf(),
        ensures
            final(self).wf(),
            r is Err ==> *final(self) == *old(self),
            r is Ok <==> refund_allowed(
                old(self).tickets@,
                token_id,
                now,
                old(self).event.refund_cutoff_time,
                caller_is_owner,
            ),
            !caller_is_owner ==> r is Err && r->Err_0 == TicketError::NotTicketOwner,
            caller_is_owner && now > old(self).event.refund_cutoff_time ==> r is Err && r->Err_0
                == TicketError::RefundWindowClosed,
            caller_is_owner && now <= old(self).event.refund_cutoff_time && !ticket_exists(
                old(self).tickets@,
                token_id,
            ) ==> r is Err && r->Err_0 == TicketError::TicketNotFound,
            caller_is_owner && now <= old(self).event.refund_cutoff_time && ticket_exists(
                old(self).tickets@,
                token_id,
            ) && !ticket_at(old(self).tickets@, token_id).is_valid ==> r is Err && r->Err_0
                == TicketError::TicketAlreadyInvalid,
            r is Ok ==> {
                &&& r->Ok_0 == ticket_at(old(self).tickets@, token_id).price_paid
                &&& final(self).tickets@ == refund_applied(old(self).tickets@, token_id)
                &&& final(self).tiers@ == old(self).tiers@
                &&& final(self).config == old(self).config
                &&& final(self).event == old(self).event
            },
    {
        if !caller_is_owner {
            return Err(TicketError::NotTicketOwner);
        }
        if now > self.event.refund_cutoff_time {
            return Err(TicketError::RefundWindowClosed);
        }
        if token_id == 0 {
            return Err(TicketError::TicketNotFound);
        }
        let idx = (token_id - 1) as usize;
        if idx >= self.tickets.len() {
            return Err(TicketError::TicketNotFound);
        }
        if !self.tickets[idx].is_valid {
            return Err(TicketError::TicketAlreadyInvalid);
        }
        let amount = self.tickets[idx].price_paid;
        let t = &mut self.tickets[idx];
        t.is_valid = false;
        proof {
            let pre = *old(self);
            assert(self.tickets@ == pre.tickets@.update(
                idx as int,
                invalidated(pre.tickets@[idx as int]),
            ));
            assert forall|sym: u64| #[trigger] minted_count(self.tickets@, sym) == minted_count(
                pre.tickets@,
                sym,
            ) by {
                lemma_minted_count_update_keeps_symbol(
                    pre.tickets@,
                    idx as int,
                    invalidated(pre.tickets@[idx as int]),
                    sym,
                );
            }
            assert forall|k: int| 0 <= k < self.tickets@.len() implies has_tier(
                self.tiers@,
                (#[trigger] self.tickets@[k]).tier_symbol,
            ) by {
                let sym = self.tickets@[k].tier_symbol;
                assert(pre.tickets@[k].tier_symbol == sym);
                assert(has_tier(pre.tiers@, sym));
            }
        }
        Ok(amount)
    }

    /// Whether a token id names a ticket that exists and is still valid.
    /// Unknown ids answer `false`, as does a ticket invalidated by refund.
    pub fn validate_ticket(&self, token_id: u32) -> (r: bool)
        ensures
            r == ticket_valid(self.tickets@, token_id),
    {
        if token_id == 0 {
            return false;
        }
        let idx = (token_id - 1) as usize;
        if idx >= self.tickets.len() {
            return false;
        }
        self.tickets[idx].is_valid
    }

    /// The ticket record behind a token id, if one was ever minted.
    pub fn get_ticket(&self, token_id: u32) -> (r: Option<Ticket>)
        ensures
            ticket_exists(self.tickets@, token_id) ==> r == Some(
                ticket_at(self.tickets@, token_id),
            ),
            !ticket_exists(self.tickets@, token_id) ==> r is None,
    {
        if token_id == 0 {
            return None;
        }
        let idx = (token_id - 1) as usize;
        if idx >= self.tickets.len() {
            return None;
        }
        Some(self.tickets[idx])
    }
}

/// Law: in every well-formed state — initialization makes one, and every
/// operation keeps one — no tier's minted count exceeds its supply cap.
pub proof fn lemma_supply_never_exceeded(s: SoulboundTicketContract)
    requires
        s.wf(),
    ensures
        forall|i: int|
            0 <= i < s.tiers@.len() ==> (#[trigger] s.tiers@[i]).minted <= s.tiers@[i].max_supply,
{
}

/// Law: refunding is single-shot. After a refund of a ticket goes through,
/// no later refund of the same ticket is allowed — at any time, under any
/// cutoff, whoever calls — so the second of two refunds of one ticket always
/// fails, and its failure leaves the ticket's validity and payment state
/// untouched (a failing refund changes nothing).
pub proof fn lemma_refund_single_shot(
    tickets: Seq<Ticket>,
    token_id: u32,
    now: u64,
    cutoff: u64,
    later_now: u64,
    later_cutoff: u64,
    later_caller_is_owner: bool,
)
    requires
        refund_allowed(tickets, token_id, now, cutoff, true),
    ensures
        !refund_allowed(
            refund_applied(tickets, token_id),
            token_id,
            later_now,
            later_cutoff,
            later_caller_is_owner,
        ),
{
    assert(refund_applied(tickets, token_id)[token_id - 1] == invalidated(
        ticket_at(tickets, token_id),
    ));
}

/// Law: the refund window boundary is inclusive. At exactly the cutoff time
/// a refund of an owned, valid ticket is allowed; at any time past the
/// cutoff no refund is allowed at all.
pub proof fn lemma_refund_window_boundary(
    tickets: Seq<Ticket>,
    token_id: u32,
    cutoff: u64,
    after: u64,
)
    requires
        after > cutoff,
    ensures
        refund_allowed(tickets, token_id, cutoff, cutoff, true) <==> ticket_valid(
            tickets,
            token_id,
        ),
        !refund_allowed(tickets, token_id, after, cutoff, true),
{
}

} // verus!
