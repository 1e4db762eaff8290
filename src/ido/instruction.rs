//! Inputs of the sale program's instructions.
use vstd::prelude::*;

verus! {

use crate::ido::error::Error;
use crate::ido::state::{KycRequirement, UnixTimeSmallDuration};
use crate::{Pubkey, UnixTimestamp, STAGES_ACTIVE_COUNT};

/// Parameters of a new pool.
#[derive(Clone, Copy, Debug)]
pub struct InitializePool {
    /// Pool owner
    pub pool_owner: Pubkey,
    /// Distributed tokens per collected token, scaled by the price precision
    pub price: u64,
    /// Maximum amount of collected tokens
    pub goal_max: u64,
    /// Minimum amount of collected tokens for the sale to succeed
    pub goal_min: u64,
    /// Minimum amount of one investment
    pub amount_min: u64,
    /// Maximum amount of one investment
    pub amount_max: u64,
    /// Time when the pool starts accepting investments
    pub time_start: UnixTimestamp,
    /// Time when the pool stops accepting investments
    pub time_finish: UnixTimestamp,
    /// KYC requirement
    pub kyc_requirement: KycRequirement,
    /// Durations of the stages before the final one
    pub time_table: [UnixTimeSmallDuration; STAGES_ACTIVE_COUNT],
}

impl InitializePool {
    /// Whether the goals are positive and ordered.
    pub open spec fn goals_valid(&self) -> bool {
        self.goal_min != 0 && self.goal_max != 0 && self.goal_min <= self.goal_max
    }

    /// Whether the investment bounds are positive and ordered.
    pub open spec fn amounts_valid(&self) -> bool {
        self.amount_min != 0 && self.amount_max != 0 && self.amount_min <= self.amount_max
    }

    /// Whether the sale window is ordered and not in the past at `now`.
    pub open spec fn time_frame_valid(&self, now: UnixTimestamp) -> bool {
        self.time_start >= now && self.time_finish >= now && self.time_start <= self.time_finish
    }

    /// Whether the stages fit in the sale window.
    pub open spec fn time_table_valid(&self) -> bool {
        self.time_table[0] + self.time_table[1] <= self.time_finish - self.time_start
    }

    /// Checks the parameters of a pool created at `now`.
    pub fn validate(&self, now: UnixTimestamp) -> (r: Result<(), Error>)
        ensures
            !self.goals_valid() ==> r == Err::<(), Error>(Error::InvalidGoalNumbers),
            self.goals_valid() && !self.amounts_valid() ==> r == Err::<(), Error>(
                Error::InvalidGoalNumbers,
            ),
            self.goals_valid() && self.amounts_valid() && !self.time_frame_valid(now) ==> r
                == Err::<(), Error>(Error::InvalidPoolTimeFrame),
            self.goals_valid() && self.amounts_valid() && self.time_frame_valid(now)
                && !self.time_table_valid() ==> r == Err::<(), Error>(Error::InvalidTimeTable),
            r is Ok <==> self.goals_valid() && self.amounts_valid() && self.time_frame_valid(now)
                && self.time_table_valid(),
    {
        if self.goal_min == 0 || self.goal_max == 0 || self.goal_min > self.goal_max {
            return Err(Error::InvalidGoalNumbers);
        }
        if self.amount_min == 0 || self.amount_max == 0 || self.amount_min > self.amount_max {
            return Err(Error::InvalidGoalNumbers);
        }
        if self.time_start < now || self.time_finish < now || self.time_start > self.time_finish {
            return Err(Error::InvalidPoolTimeFrame);
        }
        let stages: i128 = self.time_table[0] as i128 + self.time_table[1] as i128;
        if stages > self.time_finish as i128 - self.time_start as i128 {
            return Err(Error::InvalidTimeTable);
        }
        Ok(())
    }
}

/// Input of participation.
#[derive(Clone, Copy, Debug)]
pub struct Participate {
    /// Amount of collected tokens to transfer to the pool
    pub amount: u64,
}

/// Input of market initialization.
#[derive(Clone, Copy, Debug)]
pub struct InitializeMarket {
    /// The staking pool of the market
    pub stake_pool: Pubkey,
}

/// Input of KYC record creation.
#[derive(Clone, Copy, Debug)]
pub struct CreateMarketUserKyc {
    /// Expiration of the record
    pub expiration: UnixTimestamp,
}

} // verus!
