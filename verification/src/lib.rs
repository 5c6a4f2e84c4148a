//! Escrow-backed market mechanisms over a shared registry of redeemable
//! coupons: three auction variants (rising-bid, falling-price, sealed-bid),
//! threshold-priced group-buying deals with tiered discounts, and time-locked
//! staking with daily reward accrual.
//!
//! Every operation is a single atomic transition: it validates the current
//! record state, computes the fund movements the host ledger must perform,
//! and mutates its own record, or fails with a typed reason and changes
//! nothing. The host (chain runtime) supplies account identities, the current
//! time, and the actual custody transfers; this crate owns and verifies the
//! decisions.

pub mod errors;
pub mod fees;
pub mod registry;
pub mod auctions;
pub mod group_deals;
pub mod staking;
