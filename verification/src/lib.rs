//! Tiered dynamic pricing and lifecycle engine for non-transferable event
//! tickets.
//!
//! The crate models the persistent state of a soulbound ticket contract as
//! plain values and verifies the three parts that make up its core: the
//! two-source oracle resolution protocol with staleness fallback, the
//! fixed-point tier pricing computation with clamping bounds, and the ticket
//! issuance / refund / validation state machine with its supply invariants.
//!
//! Host-side concerns (ledger storage, authorization, cross-contract calls,
//! payment transfer, token ledger bookkeeping) sit outside this crate; the
//! functions here take the values those calls produce and decide everything
//! that depends on them.

pub mod errors;
pub mod lifecycle;
pub mod math;
pub mod oracle;
pub mod pricing;
