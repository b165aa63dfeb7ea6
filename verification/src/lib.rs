//! Custodial estate-and-recovery engine.
//!
//! A principal (the owner) registers a long-lived deed that designates how a
//! pool of custodial value is distributed if the owner becomes unresponsive,
//! and who may regain control if the owner's credentials are lost. The engine
//! enforces liveness tracking, percentage-based inheritance shares, a
//! time-locked two-phase emergency withdrawal, and an owner-recovery hand-off,
//! all under strict authorization and conservation rules.
//!
//! The host environment supplies identities of callers, the current time, and
//! the custodial balances, and persists the records; every decision and every
//! balance movement is computed here, under contract.

pub mod deed;
pub mod emergency;
pub mod error;
pub mod identity;
pub mod laws;
pub mod ledger;
pub mod recovery;
