//! Verified engines for a suite of ledger-resident puzzle-platform contracts.
//!
//! The centrepiece is the insurance policy and claims engine: a state machine
//! covering policy purchase, renewal and cancellation, claim submission,
//! review and payout, a premium pool with a proven non-negativity invariant,
//! and a sliding-window fraud detector. The host ledger's services (clock,
//! authorization, durable storage, fungible-asset transfers) are modelled
//! explicitly: time enters as a parameter, callers are plain principal
//! identifiers authenticated at the boundary, state lives in the contract
//! value itself, and asset movements go through a verified balance ledger.
//!
//! Alongside the insurance core, the crate carries the pure computational
//! kernels and shared vocabulary types of the platform's smaller contracts:
//! Dutch-auction pricing, skill-rating seasons and tiers, loan interest
//! accrual, and governance vote tallying.

pub mod auction;
pub mod governance;
pub mod insurance;
pub mod ledger;
pub mod lending;
pub mod premium;
pub mod reputation;
pub mod skill_rating;
