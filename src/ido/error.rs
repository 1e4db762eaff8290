//! Errors of the sale program.
use vstd::prelude::*;

verus! {

use crate::program_error::ProgramError;

/// Errors that may be returned by the sale program.
#[derive(Clone, Copy, Debug, PartialEq, Eq, Structural)]
pub enum Error {
    /// Wrong market owner
    WrongMarketOwner,
    /// Market or pool owner required
    MarketOrPoolOwnerRequired,
    /// Wrong program address
    WrongProgramAddress,
    /// Wrong token mint account
    WrongTokenMint,
    /// Wrong pool token mint account
    WrongPoolTokenMint,
    /// Wrong market address for current pool
    WrongMarketAddressForCurrentPool,
    /// Pool authority must be aligned to pool
    PoolAuthorityMustBeAlignedToPool,
    /// Invalid goal numbers
    InvalidGoalNumbers,
    /// Invalid investment size numbers
    InvalidInvestmentSizeNumbers,
    /// Invalid pool time frame
    InvalidPoolTimeFrame,
    /// Market authority must be derived from market
    MarketAuthorityMustBeDerivedFromMarket,
    /// Invalid time table
    InvalidTimeTable,
    /// Wrong account to collect tokens
    WrongCollectAccount,
    /// Wrong kyc account
    WrongKycAccount,
    /// Unable to deposit at current time
    CantDepositAtCurrentTime,
    /// Incorrect amount to deposit
    IncorrectDepositAmount,
    /// Pool already full
    PoolAlreadyFull,
    /// Can't claim tokens till pool is active
    CantClaimFromActivePool,
    /// Wrong pool account to send tokens from
    WrongPoolAccountToSendTokensFrom,
    /// Pool doesn't have mint whitelist account
    WhitelistMintNotSet,
    /// Can't withdraw from active pool
    CantWithdrawFromActivePool,
    /// Overflow
    Overflow,
    /// Division By Zero
    DivisionByZero,
    /// Underflow
    Underflow,
    /// Whitelist mint account missing
    WhitelistMintMissing,
    /// Whitelist mint account invalid
    WhitelistMintInvalid,
    /// Wrong KYC credentials
    WrongKycCredentials,
    /// Wrong user pool stage
    WrongUserPoolStage,
    /// Wrong KYC owner
    WrongKycOwner,
    /// Lock owner must be user wallet
    LockOwnerMustBeUserWallet,
    /// Pool lock token must be attached to pool lock
    PoolLockTokenMustBeAttachedToPoolLock,
    /// Input time must be in future
    InputTimeMustBeInFuture,
    /// Stake pool must belong to market
    StakePoolMustBelongToMarket,
    /// Account on this tier cannot participate on current stage
    AccountOnThisTierCannotParticipateOnCurrentStage,
    /// Account already participated on this stage
    AccountAlreadyParticipatedOnThisStage,
    /// Can participate only in started pool
    CanParticipateOnlyInStartedPool,
}

impl Error {
    /// The code of the error: its position in the declaration.
    pub open spec fn spec_code(self) -> u32 {
        match self {
            Error::WrongMarketOwner => 0,
            Error::MarketOrPoolOwnerRequired => 1,
            Error::WrongProgramAddress => 2,
            Error::WrongTokenMint => 3,
            Error::WrongPoolTokenMint => 4,
            Error::WrongMarketAddressForCurrentPool => 5,
            Error::PoolAuthorityMustBeAlignedToPool => 6,
            Error::InvalidGoalNumbers => 7,
            Error::InvalidInvestmentSizeNumbers => 8,
            Error::InvalidPoolTimeFrame => 9,
            Error::MarketAuthorityMustBeDerivedFromMarket => 10,
            Error::InvalidTimeTable => 11,
            Error::WrongCollectAccount => 12,
            Error::WrongKycAccount => 13,
            Error::CantDepositAtCurrentTime => 14,
            Error::IncorrectDepositAmount => 15,
            Error::PoolAlreadyFull => 16,
            Error::CantClaimFromActivePool => 17,
            Error::WrongPoolAccountToSendTokensFrom => 18,
            Error::WhitelistMintNotSet => 19,
            Error::CantWithdrawFromActivePool => 20,
            Error::Overflow => 21,
            Error::DivisionByZero => 22,
            Error::Underflow => 23,
            Error::WhitelistMintMissing => 24,
            Error::WhitelistMintInvalid => 25,
            Error::WrongKycCredentials => 26,
            Error::WrongUserPoolStage => 27,
            Error::WrongKycOwner => 28,
            Error::LockOwnerMustBeUserWallet => 29,
            Error::PoolLockTokenMustBeAttachedToPoolLock => 30,
            Error::InputTimeMustBeInFuture => 31,
            Error::StakePoolMustBelongToMarket => 32,
            Error::AccountOnThisTierCannotParticipateOnCurrentStage => 33,
            Error::AccountAlreadyParticipatedOnThisStage => 34,
            Error::CanParticipateOnlyInStartedPool => 35,
        }
    }

    /// The code under which the ledger reports the error.
    pub fn code(&self) -> (r: u32)
        ensures
            r == self.spec_code(),
    {
        match self {
            Error::WrongMarketOwner => 0,
            Error::MarketOrPoolOwnerRequired => 1,
            Error::WrongProgramAddress => 2,
            Error::WrongTokenMint => 3,
            Error::WrongPoolTokenMint => 4,
            Error::WrongMarketAddressForCurrentPool => 5,
            Error::PoolAuthorityMustBeAlignedToPool => 6,
            Error::InvalidGoalNumbers => 7,
            Error::InvalidInvestmentSizeNumbers => 8,
            Error::InvalidPoolTimeFrame => 9,
            Error::MarketAuthorityMustBeDerivedFromMarket => 10,
            Error::InvalidTimeTable => 11,
            Error::WrongCollectAccount => 12,
            Error::WrongKycAccount => 13,
            Error::CantDepositAtCurrentTime => 14,
            Error::IncorrectDepositAmount => 15,
            Error::PoolAlreadyFull => 16,
            Error::CantClaimFromActivePool => 17,
            Error::WrongPoolAccountToSendTokensFrom => 18,
            Error::WhitelistMintNotSet => 19,
            Error::CantWithdrawFromActivePool => 20,
            Error::Overflow => 21,
            Error::DivisionByZero => 22,
            Error::Underflow => 23,
            Error::WhitelistMintMissing => 24,
            Error::WhitelistMintInvalid => 25,
            Error::WrongKycCredentials => 26,
            Error::WrongUserPoolStage => 27,
            Error::WrongKycOwner => 28,
            Error::LockOwnerMustBeUserWallet => 29,
            Error::PoolLockTokenMustBeAttachedToPoolLock => 30,
            Error::InputTimeMustBeInFuture => 31,
            Error::StakePoolMustBelongToMarket => 32,
            Error::AccountOnThisTierCannotParticipateOnCurrentStage => 33,
            Error::AccountAlreadyParticipatedOnThisStage => 34,
            Error::CanParticipateOnlyInStartedPool => 35,
        }
    }

    /// The error as the ledger reports it.
    pub fn to_program_error(self) -> (r: ProgramError)
        ensures
            r == ProgramError::Custom(self.spec_code()),
    {
        ProgramError::Custom(self.code())
    }

    /// The human-readable description of the error.
    pub fn message(&self) -> (r: &'static str) {
        match self {
            Error::WrongMarketOwner => "Wrong market owner",
            Error::MarketOrPoolOwnerRequired => "Market or pool owner required",
            Error::WrongProgramAddress => "Wrong program address",
            Error::WrongTokenMint => "Wrong token mint account",
            Error::WrongPoolTokenMint => "Wrong pool token mint account",
            Error::WrongMarketAddressForCurrentPool => "Wrong market address for current pool",
            Error::PoolAuthorityMustBeAlignedToPool => "Pool authority must be aligned to pool",
            Error::InvalidGoalNumbers => "Invalid goal numbers",
            Error::InvalidInvestmentSizeNumbers => "Invalid investment size numbers",
            Error::InvalidPoolTimeFrame => "Invalid pool time frame",
            Error::MarketAuthorityMustBeDerivedFromMarket => "Market authority must be derived from market",
            Error::InvalidTimeTable => "Invalid time table",
            Error::WrongCollectAccount => "Wrong account to collect tokens",
            Error::WrongKycAccount => "Wrong kyc account",
            Error::CantDepositAtCurrentTime => "Unable to deposit at current time",
            Error::IncorrectDepositAmount => "Incorrect amount to deposit",
            Error::PoolAlreadyFull => "Pool already full",
            Error::CantClaimFromActivePool => "Can't claim tokens till pool is active",
            Error::WrongPoolAccountToSendTokensFrom => "Wrong pool account to send tokens from",
            Error::WhitelistMintNotSet => "Pool doesn't have mint whitelist account",
            Error::CantWithdrawFromActivePool => "Can't withdraw from active pool",
            Error::Overflow => "Overflow",
            Error::DivisionByZero => "Division By Zero",
            Error::Underflow => "Underflow",
            Error::WhitelistMintMissing => "Whitelist mint account missing",
            Error::WhitelistMintInvalid => "Whitelist mint account invalid",
            Error::WrongKycCredentials => "Wrong KYC credentials",
            Error::WrongUserPoolStage => "Wrong user pool stage",
            Error::WrongKycOwner => "Wrong KYC owner",
            Error::LockOwnerMustBeUserWallet => "Lock owner must be user wallet",
            Error::PoolLockTokenMustBeAttachedToPoolLock => "Pool lock token must be attached to pool lock",
            Error::InputTimeMustBeInFuture => "Input time must be in future",
            Error::StakePoolMustBelongToMarket => "Stake pool must belong to market",
            Error::AccountOnThisTierCannotParticipateOnCurrentStage => "Account on this tier cannot participate on current stage",
            Error::AccountAlreadyParticipatedOnThisStage => "Account already participated on this stage",
            Error::CanParticipateOnlyInStartedPool => "Can participate only in started pool",
        }
    }
}

} // verus!
