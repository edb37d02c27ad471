//! The error taxonomy of the ticket engine. Every fatal error names the
//! invariant that was violated; external price-feed degradation is never an
//! error (the oracle module resolves it by fallback or a neutral multiplier).

use vstd::prelude::*;

verus! {

/// Why an operation was refused. Each variant corresponds to exactly one
/// guard, and every operation's contract states which variant comes back on
/// which inputs.
#[derive(Clone, Copy, PartialEq, Eq, Structural, Debug)]
pub enum TicketError {
    /// A tier with the requested identifier already exists.
    TierAlreadyExists,
    /// No tier with the requested identifier exists.
    TierNotFound,
    /// The tier exists but is not open for purchase.
    TierInactive,
    /// The tier has no remaining supply for a purchase.
    TierSoldOut,
    /// A batch mint would push `minted` past `max_supply`.
    SupplyExceeded,
    /// The current time is past the refund cutoff.
    RefundWindowClosed,
    /// No ticket with the requested token id exists.
    TicketNotFound,
    /// The ticket was already refunded and invalidated.
    TicketAlreadyInvalid,
    /// The caller does not own the ticket.
    NotTicketOwner,
    /// A price computation left the 128-bit fixed-point range.
    ArithmeticOverflow,
    /// The monotonic token id counter has no room for the requested mint.
    TokenIdsExhausted,
}

impl TicketError {
    /// A human-readable reason naming the violated invariant.
    pub fn message(&self) -> &'static str {
        match self {
            TicketError::TierAlreadyExists => "Tier already exists",
            TicketError::TierNotFound => "Tier not found",
            TicketError::TierInactive => "Tier is not active",
            TicketError::TierSoldOut => "Tier sold out",
            TicketError::SupplyExceeded => "Exceeds tier max supply",
            TicketError::RefundWindowClosed => "Refund window closed",
            TicketError::TicketNotFound => "Ticket not found",
            TicketError::TicketAlreadyInvalid => "Ticket already invalidated",
            TicketError::NotTicketOwner => "Not the ticket owner",
            TicketError::ArithmeticOverflow => "Price computation overflowed",
            TicketError::TokenIdsExhausted => "Token id space exhausted",
        }
    }
}

} // verus!
