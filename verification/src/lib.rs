//! A multiplayer fantasy-prediction-league engine.
//!
//! Players join a shared pool, draft prediction-market picks in snake-draft
//! turn order, accrue points as markets resolve, may trade unresolved picks,
//! and finally split the prize pool in proportion to points earned.
//!
//! Every operation here is a deterministic, all-or-nothing state transition on
//! plain records: on success the records change exactly as the contract says,
//! on error they are left untouched (the one documented exception being lazy
//! trade expiry, which marks the proposal `Expired` while rejecting the call).
//! Durable storage, caller authentication, the wall clock and the fund-transfer
//! primitive are external collaborators: callers hand in verified identities,
//! timestamps and seeds as plain values and perform transfers themselves.

pub mod errors;
pub mod league;
pub mod payout;
pub mod resolve;
pub mod scoring;
pub mod state;
pub mod trades;
