//! Errors of the staking program.
use vstd::prelude::*;

verus! {

use crate::program_error::ProgramError;

/// Errors that may be returned by the staking program.
#[derive(Clone, Copy, Debug, PartialEq, Eq, Structural)]
pub enum Error {
    /// Wrong market owner account
    WrongOwner,
    /// Pool must be related to market
    PoolMustBeRelatedToMarket,
    /// Lock must be related to pool
    LockMustBeRelatedToPool,
    /// Pool must be active for some time
    PoolMustBeActiveForSomeTime,
    /// Cannot unlock when pool is active
    CannotUnlockWhenPoolIsActive,
    /// Cannot lock when pool is active
    CannotLockWhenPoolIsActive,
    /// Invalid authority
    InvalidAuthority,
    /// One of the accounts does not correspond to the rest of the data
    WrongAccountSpecified,
    /// Overflow
    Overflow,
    /// Underflow
    Underflow,
    /// Cannot transit anything now
    CannotTransitAnythingNow,
    /// Derived account key is not equal to calculated
    DerivedAccountKeyIsNotEqualToCalculated,
    /// Derived pool lock account key is not equal to calculated
    DerivedPoolLockAccountKeyIsNotEqualToCalculated,
    /// Pool transit wrong direction
    PoolTransitWrongDirection,
    /// Pool transit must be of provided pool
    PoolTransitMustBeOfProvidedPool,
}

impl Error {
    /// The code of the error: its position in the declaration.
    pub open spec fn spec_code(self) -> u32 {
        match self {
            Error::WrongOwner => 0,
            Error::PoolMustBeRelatedToMarket => 1,
            Error::LockMustBeRelatedToPool => 2,
            Error::PoolMustBeActiveForSomeTime => 3,
            Error::CannotUnlockWhenPoolIsActive => 4,
            Error::CannotLockWhenPoolIsActive => 5,
            Error::InvalidAuthority => 6,
            Error::WrongAccountSpecified => 7,
            Error::Overflow => 8,
            Error::Underflow => 9,
            Error::CannotTransitAnythingNow => 10,
            Error::DerivedAccountKeyIsNotEqualToCalculated => 11,
            Error::DerivedPoolLockAccountKeyIsNotEqualToCalculated => 12,
            Error::PoolTransitWrongDirection => 13,
            Error::PoolTransitMustBeOfProvidedPool => 14,
        }
    }

    /// The code under which the ledger reports the error.
    pub fn code(&self) -> (r: u32)
        ensures
            r == self.spec_code(),
    {
        match self {
            Error::WrongOwner => 0,
            Error::PoolMustBeRelatedToMarket => 1,
            Error::LockMustBeRelatedToPool => 2,
            Error::PoolMustBeActiveForSomeTime => 3,
            Error::CannotUnlockWhenPoolIsActive => 4,
            Error::CannotLockWhenPoolIsActive => 5,
            Error::InvalidAuthority => 6,
            Error::WrongAccountSpecified => 7,
            Error::Overflow => 8,
            Error::Underflow => 9,
            Error::CannotTransitAnythingNow => 10,
            Error::DerivedAccountKeyIsNotEqualToCalculated => 11,
            Error::DerivedPoolLockAccountKeyIsNotEqualToCalculated => 12,
            Error::PoolTransitWrongDirection => 13,
            Error::PoolTransitMustBeOfProvidedPool => 14,
        }
    }

    /// The error as the ledger reports it.
    pub fn to_program_error(self) -> (r: ProgramError)
        ensures
            r == ProgramError::Custom(self.spec_code()),
    {
        ProgramError::Custom(self.code())
    }

    /// The human-readable description of the error.
    pub fn message(&self) -> (r: &'static str) {
        match self {
            Error::WrongOwner => "Wrong owner account",
            Error::PoolMustBeRelatedToMarket => "Pool must be related to market",
            Error::LockMustBeRelatedToPool => "Lock must be related to pool",
            Error::PoolMustBeActiveForSomeTime => "Pool must be active for some time",
            Error::CannotUnlockWhenPoolIsActive => "Cannot unlock when pool is active",
            Error::CannotLockWhenPoolIsActive => "Cannot lock when pool is active",
            Error::InvalidAuthority => "Invalid authority",
            Error::WrongAccountSpecified => "Wrong account specified",
            Error::Overflow => "Overflow",
            Error::Underflow => "Underflow",
            Error::CannotTransitAnythingNow => "Cannot transit anything now",
            Error::DerivedAccountKeyIsNotEqualToCalculated => "Derived account key is not equal to calculated",
            Error::DerivedPoolLockAccountKeyIsNotEqualToCalculated => "Derived pool lock account key is not equal to calculated",
            Error::PoolTransitWrongDirection => "Pool transit wrong direction",
            Error::PoolTransitMustBeOfProvidedPool => "Pool transit must be of provided pool",
        }
    }
}

} // verus!
