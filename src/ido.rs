//! The token sale: pools, stages, allocations and conversions.
pub mod error;
pub mod instruction;
pub mod laws;
pub mod math;
pub mod state;
