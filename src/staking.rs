//! Staking facility: tiers, locks and transits.
pub mod error;
pub mod instruction;
pub mod math;
pub mod state;
