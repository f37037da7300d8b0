//! A farm of unique cows with a feeding routine, a deterministic appraisal
//! and an ascending auction market, over a store whose records expire unless
//! they are renewed.
//!
//! The farm is a state machine: every operation takes the state, the caller's
//! arguments and the balances it needs, and yields the next state, a result
//! and the list of transfers and notifications that the host has to perform.

pub mod constants;
pub mod contract;
pub mod effects;
pub mod enums;
pub mod farm;
pub mod feeding;
pub mod ids;
pub mod laws;
pub mod ownership;
pub mod pricing;
pub mod registry;
pub mod store;
pub mod types;
