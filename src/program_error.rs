//! Errors reported to the ledger that runs the programs.
use vstd::prelude::*;

verus! {

/// Failure of one instruction, in the form the ledger reports it.
#[derive(Clone, Copy, Debug, PartialEq, Eq, Structural)]
pub enum ProgramError {
    /// A program's own error, by its code.
    Custom(u32),
    /// The record was initialized already.
    AccountAlreadyInitialized,
    /// The record was not initialized yet.
    UninitializedAccount,
}

} // verus!
