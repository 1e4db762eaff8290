//! Inputs of the staking program's instructions.
use vstd::prelude::*;

verus! {

use crate::{Pubkey, UnixTimestamp, TIERS_COUNT};

/// Input of pool initialization.
#[derive(Clone, Copy, Debug)]
pub struct InitializePoolInput {
    /// Balances qualifying for the tiers, in ascending order
    pub tier_balance: [u64; TIERS_COUNT],
    /// Authority of the sale that controls the pool
    pub ido_authority: Pubkey,
    /// Seconds that staked tokens stay in an incoming transit
    pub transit_incoming: UnixTimestamp,
    /// Seconds that unstaked tokens stay in an outgoing transit
    pub transit_outgoing: UnixTimestamp,
}

/// Input of stake start.
#[derive(Clone, Copy, Debug)]
pub struct StakeStartInput {
    /// Amount
    pub amount: u64,
}

/// Input of unstake start.
#[derive(Clone, Copy, Debug)]
pub struct UnstakeStartInput {
    /// Amount
    pub amount: u64,
}

/// Input of lock.
#[derive(Clone, Copy, Debug)]
pub struct LockInput {
    /// Amount
    pub amount: u64,
}

/// Input of unlock.
#[derive(Clone, Copy, Debug)]
pub struct UnlockInput {
    /// Amount
    pub amount: u64,
}

/// Input of pool start.
#[derive(Clone, Copy, Debug)]
pub struct StartPoolInput {
    /// While the ledger clock is before this time, locks cannot change
    pub pool_active_until: UnixTimestamp,
}

} // verus!
