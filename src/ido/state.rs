//! Records of the sale program, the stage classifier, the investment policy,
//! the allocation calculator and the price converter.
use vstd::prelude::*;

verus! {

use crate::ido::error::Error;
use crate::ido::instruction::{CreateMarketUserKyc, InitializeMarket, InitializePool};
use crate::ido::math::{error_add, error_div, error_mul, error_sub};
use crate::program_error::ProgramError;
use crate::staking::state::{get_tier, tier_index, tier_of};
use crate::{Pubkey, UnixTimestamp, STAGES_ACTIVE_COUNT, TIERS_COUNT};

/// Version of a record that is not initialized.
pub const UNINITIALIZED_VERSION: u8 = 0;

/// Current market version.
pub const MARKET_VERSION: u8 = 1;

/// Current KYC record version.
pub const USER_KYC_VERSION: u8 = 1;

/// Current pool version.
pub const POOL_VERSION: u8 = 1;

/// Current user stage marker version.
pub const USER_POOL_STAGE_VERSION: u8 = 1;

/// Number of whitelist tokens that one participation burns.
pub const WHITELIST_TOKEN_AMOUNT: u8 = 1;

/// Scale of prices: distributed = collected * PRECISION / price.
pub const PRECISION: u64 = 1_000_000_000;

/// A short duration in seconds.
pub type UnixTimeSmallDuration = u32;

/// Errs unless a record of version `version` is still uninitialized.
fn require_uninitialized(version: u8) -> (r: Result<(), ProgramError>)
    ensures
        r == (if version == UNINITIALIZED_VERSION {
            Ok::<(), ProgramError>(())
        } else {
            Err(ProgramError::AccountAlreadyInitialized)
        }),
{
    if version == UNINITIALIZED_VERSION {
        Ok(())
    } else {
        Err(ProgramError::AccountAlreadyInitialized)
    }
}

/// Errs unless a record of version `version` is initialized.
fn require_initialized(version: u8) -> (r: Result<(), ProgramError>)
    ensures
        r == (if version != UNINITIALIZED_VERSION {
            Ok::<(), ProgramError>(())
        } else {
            Err(ProgramError::UninitializedAccount)
        }),
{
    if version != UNINITIALIZED_VERSION {
        Ok(())
    } else {
        Err(ProgramError::UninitializedAccount)
    }
}

/// A group of pools.
#[derive(Clone, Copy, Debug)]
pub struct Market {
    /// Version
    pub version: u8,
    /// Owner, who can initialize pools of the market
    pub owner: Pubkey,
    /// The staking pool that decides the users' tiers
    pub stake_pool: Pubkey,
}

impl Market {
    /// Size of the record in the ledger.
    pub const LEN: usize = 65;

    /// Errs if the market is initialized already.
    pub fn uninitialized(&self) -> (r: Result<(), ProgramError>)
        ensures
            r is Ok <==> self.version == UNINITIALIZED_VERSION,
            r is Err ==> r == Err::<(), ProgramError>(ProgramError::AccountAlreadyInitialized),
    {
        require_uninitialized(self.version)
    }

    /// Errs if the market is not initialized.
    pub fn initialized(&self) -> (r: Result<(), ProgramError>)
        ensures
            r is Ok <==> self.version != UNINITIALIZED_VERSION,
            r is Err ==> r == Err::<(), ProgramError>(ProgramError::UninitializedAccount),
    {
        require_initialized(self.version)
    }

    /// Initializes the market for `owner`, with the staking pool of `input`.
    pub fn initialize(&mut self, owner: Pubkey, input: &InitializeMarket) -> (r: Result<
        (),
        ProgramError,
    >)
        ensures
            old(self).version != UNINITIALIZED_VERSION ==> r == Err::<(), ProgramError>(
                ProgramError::AccountAlreadyInitialized,
            ) && *final(self) == *old(self),
            old(self).version == UNINITIALIZED_VERSION ==> r is Ok && *final(self) == (Market {
                version: MARKET_VERSION,
                owner,
                stake_pool: input.stake_pool,
            }),
    {
        self.uninitialized()?;
        self.version = MARKET_VERSION;
        self.owner = owner;
        self.stake_pool = input.stake_pool;
        Ok(())
    }
}

/// KYC requirement of a pool.
#[derive(Clone, Copy, Debug, PartialEq, Eq, Structural)]
pub enum KycRequirement {
    /// No verification needed
    NotRequired,
    /// A valid KYC record is required to participate
    AnyRequired,
}

/// Marker record of one user's participation in one stage.
#[derive(Clone, Copy, Debug)]
pub struct UserPoolStage {}

impl UserPoolStage {
    /// Size of the record in the ledger.
    pub const LEN: usize = 0;
}

/// Whitelist mint of a pool.
#[derive(Clone, Copy, Debug)]
pub enum MintWhitelist {
    /// Participation burns a token of this mint
    Key(Pubkey),
    /// The pool is public
    NoKey(Pubkey),
}

/// What a claim pays out.
#[derive(Clone, Copy, Debug, PartialEq, Eq, Structural)]
pub enum Payout {
    /// The sale succeeded: distributed tokens bought with the burned pool tokens
    Distribution(u64),
    /// The sale failed: collected tokens given back for the burned pool tokens
    Refund(u64),
}

/// Stages of a sale.
#[derive(Clone, Copy, Debug, PartialEq, Eq, Structural)]
pub enum Stage {
    /// Each investor may invest up to the threshold of their tier
    InitialStage,
    /// The investors of a tier share what remains of its allocation
    TierAllocationStage,
    /// Anyone may invest, up to what the pool still accepts
    FinalStage,
}

impl Stage {
    /// Position of the stage in the sale.
    pub open spec fn index(self) -> u8 {
        match self {
            Stage::InitialStage => 0,
            Stage::TierAllocationStage => 1,
            Stage::FinalStage => 2,
        }
    }

    /// Position of the stage in the sale.
    pub fn to_u8(self) -> (r: u8)
        ensures
            r == self.index(),
    {
        match self {
            Stage::InitialStage => 0,
            Stage::TierAllocationStage => 1,
            Stage::FinalStage => 2,
        }
    }

    /// Position of the stage as big-endian bytes.
    pub fn to_be_bytes(self) -> (r: [u8; 1])
        ensures
            r@ == seq![self.index()],
    {
        let r = [self.to_u8()];
        proof {
            assert(r@ =~= seq![self.index()]);
        }
        r
    }
}

/// Verified credentials of a user on a market.
#[derive(Clone, Copy, Debug)]
pub struct MarketUserKyc {
    /// Version
    pub version: u8,
    /// Market
    pub market: Pubkey,
    /// User
    pub user_wallet: Pubkey,
    /// Expiration of the credentials
    pub expiration: UnixTimestamp,
}

impl MarketUserKyc {
    /// Size of the record in the ledger.
    pub const LEN: usize = 73;

    /// Errs if the record is initialized already.
    pub fn uninitialized(&self) -> (r: Result<(), ProgramError>)
        ensures
            r is Ok <==> self.version == UNINITIALIZED_VERSION,
            r is Err ==> r == Err::<(), ProgramError>(ProgramError::AccountAlreadyInitialized),
    {
        require_uninitialized(self.version)
    }

    /// Errs if the record is not initialized.
    pub fn initialized(&self) -> (r: Result<(), ProgramError>)
        ensures
            r is Ok <==> self.version != UNINITIALIZED_VERSION,
            r is Err ==> r == Err::<(), ProgramError>(ProgramError::UninitializedAccount),
    {
        require_initialized(self.version)
    }

    /// Records that `user_wallet` is verified on `market` until the expiration of
    /// `input`, which must not be before `now`.
    pub fn initialize(
        &mut self,
        market: Pubkey,
        user_wallet: Pubkey,
        now: UnixTimestamp,
        input: &CreateMarketUserKyc,
    ) -> (r: Result<(), ProgramError>)
        ensures
            now > input.expiration ==> r == Err::<(), ProgramError>(
                ProgramError::Custom(Error::InputTimeMustBeInFuture.spec_code()),
            ),
            now <= input.expiration && old(self).version != UNINITIALIZED_VERSION ==> r == Err::<
                (),
                ProgramError,
            >(ProgramError::AccountAlreadyInitialized),
            now <= input.expiration && old(self).version == UNINITIALIZED_VERSION ==> r is Ok
                && *final(self) == (MarketUserKyc {
                version: USER_KYC_VERSION,
                market,
                user_wallet,
                expiration: input.expiration,
            }),
            r is Err ==> *final(self) == *old(self),
    {
        if now > input.expiration {
            return Err(Error::InputTimeMustBeInFuture.to_program_error());
        }
        self.uninitialized()?;
        self.market = market;
        self.expiration = input.expiration;
        self.user_wallet = user_wallet;
        self.version = USER_KYC_VERSION;
        Ok(())
    }

    /// Whether the record admits `user_wallet` to `market` at `now`.
    pub fn admits(&self, market: Pubkey, user_wallet: Pubkey, now: UnixTimestamp) -> (r: bool)
        ensures
            r == (self.market.0@ == market.0@ && self.expiration >= now
                && self.user_wallet.0@ == user_wallet.0@),
    {
        self.market == market && self.expiration >= now && self.user_wallet == user_wallet
    }
}

/// A sale campaign.
#[derive(Clone, Copy, Debug)]
pub struct Pool {
    /// Version
    pub version: u8,
    /// Market of the pool
    pub market: Pubkey,
    /// Token account of the collected tokens
    pub account_collection: Pubkey,
    /// Token account of the distributed tokens
    pub account_distribution: Pubkey,
    /// Mint of the pool tokens, minted on purchase
    pub mint_pool: Pubkey,
    /// Whitelist mint, for pools open to whitelisted users only
    pub mint_whitelist: MintWhitelist,
    /// KYC requirement
    pub kyc_requirement: KycRequirement,
    /// Distributed tokens per collected token, scaled by `PRECISION`
    pub price: u64,
    /// Maximum amount to collect
    pub goal_max_collected: u64,
    /// Minimum amount to collect for the sale to succeed
    pub goal_min_collected: u64,
    /// Minimum size of one investment
    pub amount_investment_min: u64,
    /// Maximum size of one investment
    pub amount_investment_max: u64,
    /// Time when the pool starts accepting investments
    pub time_start: UnixTimestamp,
    /// Time when the pool stops accepting investments and starts distribution
    pub time_finish: UnixTimestamp,
    /// Amount collected
    pub amount_collected: u64,
    /// Amount to distribute, the sum of the converted investments
    pub amount_to_distribute: u64,
    /// Owner, who can withdraw from the pool's token accounts
    pub owner: Pubkey,
    /// Authority of the pool's accounts
    pub authority: Pubkey,
    /// Bump seed of the authority
    pub authority_bump_seed: u8,
    /// Allocation of one investor of each tier
    pub tier_allocation: [u64; TIERS_COUNT],
    /// What remains of each tier's total allocation
    pub tier_remaining: [u64; TIERS_COUNT],
    /// Durations of the stages before the final one
    pub time_table: [UnixTimeSmallDuration; STAGES_ACTIVE_COUNT],
}

/// The stage of a sale `elapsed` seconds after its start.
pub open spec fn stage_at(elapsed: int, time_table: Seq<u32>) -> Stage {
    if elapsed < time_table[0] {
        Stage::InitialStage
    } else if elapsed < time_table[0] + time_table[1] {
        Stage::TierAllocationStage
    } else {
        Stage::FinalStage
    }
}

/// `amount` collected tokens in distributed tokens at `price` (floored).
pub open spec fn distributed_of(amount: int, price: int) -> int {
    amount * PRECISION / price
}

/// Conversion of `amount` collected tokens at `price`: `DivisionByZero` for a
/// zero price, `Overflow` when the result does not fit.
pub open spec fn conversion(amount: u64, price: u64) -> Result<u64, Error> {
    if price == 0 {
        Err(Error::DivisionByZero)
    } else if distributed_of(amount as int, price as int) > u64::MAX {
        Err(Error::Overflow)
    } else {
        Ok(distributed_of(amount as int, price as int) as u64)
    }
}

/// Cap of one investment of `amount` in `stage` by an investor of `tier`, or none
/// when the investor cannot take part in the stage.
pub open spec fn stage_cap(
    stage: Stage,
    tier: Option<int>,
    amount: u64,
    tier_balance: Seq<u64>,
    tier_remaining: Seq<u64>,
) -> Option<u64> {
    match stage {
        Stage::InitialStage => match tier {
            Some(i) => Some(tier_balance[i]),
            None => None,
        },
        Stage::TierAllocationStage => match tier {
            Some(i) => Some(tier_remaining[i]),
            None => None,
        },
        Stage::FinalStage => Some(amount),
    }
}

/// What remains of the tiers' allocations after `distributed` tokens go to an
/// investor of `tier` in `stage`; none when the tier's remainder is too small.
/// The final stage takes from no tier.
pub open spec fn remaining_after(
    tier_remaining: Seq<u64>,
    stage: Stage,
    tier: Option<int>,
    distributed: u64,
) -> Option<Seq<u64>> {
    match tier {
        Some(t) => if stage == Stage::FinalStage {
            Some(tier_remaining)
        } else if tier_remaining[t] < distributed {
            None
        } else {
            Some(tier_remaining.update(t, (tier_remaining[t] - distributed) as u64))
        },
        None => Some(tier_remaining),
    }
}

/// Sum of `tier_balance[i] * tier_users[i]` over the first `n` tiers.
pub open spec fn shares_upto(tier_users: Seq<u32>, tier_balance: Seq<u64>, n: int) -> int
    decreases n,
{
    if n <= 0 {
        0
    } else {
        shares_upto(tier_users, tier_balance, n - 1) + tier_balance[n - 1] * tier_users[n - 1]
    }
}

/// Total weight of all tiers: each tier's threshold times its number of users.
pub open spec fn total_shares(tier_users: Seq<u32>, tier_balance: Seq<u64>) -> int {
    shares_upto(tier_users, tier_balance, TIERS_COUNT as int)
}

/// Allocation of one investor of a tier with threshold `balance`: the tier's
/// weighted part of the maximum raise, floored at every division.
pub open spec fn per_investor(balance: u64, goal_max: u64, price: u64, shares: int) -> int {
    balance as int * goal_max as int * PRECISION as int / price as int / shares
}

/// Whether the computation of a tier's allocation stays within its integer widths.
pub open spec fn tier_fits(balance: u64, users: u32, goal_max: u64, price: u64, shares: int) -> bool {
    let per = per_investor(balance, goal_max, price, shares);
    &&& balance * goal_max * PRECISION <= u128::MAX
    &&& per * users <= u64::MAX
    &&& per <= u64::MAX
}

/// The smaller of two amounts.
pub open spec fn min_u64(a: u64, b: u64) -> u64 {
    if a <= b {
        a
    } else {
        b
    }
}

impl Pool {
    /// Size of the record in the ledger.
    pub const LEN: usize = 372;

    /// The pool's invariant: ordered goals, investment bounds and sale window,
    /// stages that fit in the window, and no more collected than the maximum goal.
    pub open spec fn well_formed(&self) -> bool {
        &&& self.goal_min_collected <= self.goal_max_collected
        &&& self.amount_investment_min <= self.amount_investment_max
        &&& self.time_start <= self.time_finish
        &&& self.time_table@[0] + self.time_table@[1] <= self.time_finish - self.time_start
        &&& self.amount_collected <= self.goal_max_collected
    }

    /// Errs if the pool is initialized already.
    pub fn uninitialized(&self) -> (r: Result<(), ProgramError>)
        ensures
            r is Ok <==> self.version == UNINITIALIZED_VERSION,
            r is Err ==> r == Err::<(), ProgramError>(ProgramError::AccountAlreadyInitialized),
    {
        require_uninitialized(self.version)
    }

    /// Errs if the pool is not initialized.
    pub fn initialized(&self) -> (r: Result<(), ProgramError>)
        ensures
            r is Ok <==> self.version != UNINITIALIZED_VERSION,
            r is Err ==> r == Err::<(), ProgramError>(ProgramError::UninitializedAccount),
    {
        require_initialized(self.version)
    }

    /// Initializes the pool from the parameters of `input`, checked at `now`, with
    /// the accounts and the authority that the ledger created for it.
    pub fn initialize(
        &mut self,
        input: &InitializePool,
        now: UnixTimestamp,
        market: Pubkey,
        account_collection: Pubkey,
        account_distribution: Pubkey,
        mint_pool: Pubkey,
        mint_whitelist: MintWhitelist,
        authority: Pubkey,
        authority_bump_seed: u8,
    ) -> (r: Result<(), ProgramError>)
        ensures
            !(input.goals_valid() && input.amounts_valid()) ==> r == Err::<(), ProgramError>(
                ProgramError::Custom(Error::InvalidGoalNumbers.spec_code()),
            ),
            input.goals_valid() && input.amounts_valid() && !input.time_frame_valid(now) ==> r
                == Err::<(), ProgramError>(
                ProgramError::Custom(Error::InvalidPoolTimeFrame.spec_code()),
            ),
            input.goals_valid() && input.amounts_valid() && input.time_frame_valid(now)
                && !input.time_table_valid() ==> r == Err::<(), ProgramError>(
                ProgramError::Custom(Error::InvalidTimeTable.spec_code()),
            ),
            input.goals_valid() && input.amounts_valid() && input.time_frame_valid(now)
                && input.time_table_valid() && old(self).version != UNINITIALIZED_VERSION ==> r
                == Err::<(), ProgramError>(ProgramError::AccountAlreadyInitialized),
            input.goals_valid() && input.amounts_valid() && input.time_frame_valid(now)
                && input.time_table_valid() && old(self).version == UNINITIALIZED_VERSION ==> r
                is Ok && *final(self) == (Pool {
                version: POOL_VERSION,
                market,
                account_collection,
                account_distribution,
                mint_pool,
                mint_whitelist,
                kyc_requirement: input.kyc_requirement,
                price: input.price,
                goal_max_collected: input.goal_max,
                goal_min_collected: input.goal_min,
                amount_investment_min: input.amount_min,
                amount_investment_max: input.amount_max,
                time_start: input.time_start,
                time_finish: input.time_finish,
                owner: input.pool_owner,
                authority,
                authority_bump_seed,
                time_table: input.time_table,
                ..*old(self)
            }),
            r is Ok && old(self).amount_collected == 0 ==> final(self).well_formed(),
            r is Err ==> *final(self) == *old(self),
    {
        match input.validate(now) {
            Ok(()) => {},
            Err(e) => return Err(e.to_program_error()),
        }
        self.uninitialized()?;
        self.version = POOL_VERSION;
        self.market = market;
        self.account_collection = account_collection;
        self.account_distribution = account_distribution;
        self.mint_pool = mint_pool;
        self.mint_whitelist = mint_whitelist;
        self.kyc_requirement = input.kyc_requirement;
        self.price = input.price;
        self.goal_max_collected = input.goal_max;
        self.goal_min_collected = input.goal_min;
        self.amount_investment_min = input.amount_min;
        self.amount_investment_max = input.amount_max;
        self.time_start = input.time_start;
        self.time_finish = input.time_finish;
        self.owner = input.pool_owner;
        self.authority = authority;
        self.authority_bump_seed = authority_bump_seed;
        self.time_table = input.time_table;
        Ok(())
    }

    /// Whether a participation must burn a whitelist token: a whitelist pool needs
    /// the whitelist mint, `account_mint_whitelist`, to be its own.
    pub fn whitelist_burn(&self, account_mint_whitelist: Option<Pubkey>) -> (r: Result<bool, Error>)
        ensures
            match self.mint_whitelist {
                MintWhitelist::Key(k) => match account_mint_whitelist {
                    Some(m) => if k.0@ == m.0@ {
                        r == Ok::<bool, Error>(true)
                    } else {
                        r == Err::<bool, Error>(Error::WhitelistMintInvalid)
                    },
                    None => r == Err::<bool, Error>(Error::WhitelistMintMissing),
                },
                MintWhitelist::NoKey(_) => r == Ok::<bool, Error>(false),
            },
    {
        match self.mint_whitelist {
            MintWhitelist::Key(k) => match account_mint_whitelist {
                Some(m) => if k == m {
                    Ok(true)
                } else {
                    Err(Error::WhitelistMintInvalid)
                },
                None => Err(Error::WhitelistMintMissing),
            },
            MintWhitelist::NoKey(_) => Ok(false),
        }
    }

    /// Errs unless `pool_owner` owns the pool and `mint_whitelist` is its whitelist
    /// mint, the conditions for adding a user to the whitelist.
    pub fn check_whitelist_mint(&self, pool_owner: Pubkey, mint_whitelist: Pubkey) -> (r: Result<
        (),
        Error,
    >)
        ensures
            pool_owner.0@ != self.owner.0@ ==> r == Err::<(), Error>(Error::WrongMarketOwner),
            pool_owner.0@ == self.owner.0@ ==> match self.mint_whitelist {
                MintWhitelist::Key(k) => if k.0@ == mint_whitelist.0@ {
                    r == Ok::<(), Error>(())
                } else {
                    r == Err::<(), Error>(Error::WrongTokenMint)
                },
                MintWhitelist::NoKey(_) => r == Err::<(), Error>(Error::WhitelistMintNotSet),
            },
    {
        if pool_owner != self.owner {
            return Err(Error::WrongMarketOwner);
        }
        match self.mint_whitelist {
            MintWhitelist::Key(k) => if k == mint_whitelist {
                Ok(())
            } else {
                Err(Error::WrongTokenMint)
            },
            MintWhitelist::NoKey(_) => Err(Error::WhitelistMintNotSet),
        }
    }

    /// Whether the sale reached its minimum goal.
    pub fn success(&self) -> (r: bool)
        ensures
            r == (self.amount_collected >= self.goal_min_collected),
    {
        self.amount_collected >= self.goal_min_collected
    }

    /// Converts collected tokens into distributed tokens at the pool's price.
    pub fn collected_to_distributed(&self, amount_collected: u64) -> (r: Result<u64, Error>)
        ensures
            r == conversion(amount_collected, self.price),
    {
        let amount = amount_collected as u128;
        let price = self.price as u128;
        proof {
            assert(amount * PRECISION <= u128::MAX) by (nonlinear_arith)
                requires
                    amount <= u64::MAX,
            ;
        }
        let scaled = error_mul(amount, PRECISION as u128)?;
        let distributed = error_div(scaled, price)?;
        if distributed > u64::MAX as u128 {
            return Err(Error::Overflow);
        }
        Ok(distributed as u64)
    }

    /// Converts an investment of `amount` into distributed tokens, takes them from
    /// the investor's tier outside the final stage, and adds them to the amount to
    /// distribute. Each investment is converted on its own, so the amount to
    /// distribute is the sum of the individually rounded conversions.
    pub fn update_distributed_from_collected(
        &mut self,
        amount: u64,
        tier: Option<usize>,
        stage: Stage,
    ) -> (r: Result<(), Error>)
        requires
            tier matches Some(t) ==> t < TIERS_COUNT,
        ensures
            match conversion(amount, old(self).price) {
                Err(e) => r == Err::<(), Error>(e),
                Ok(d) => match remaining_after(old(self).tier_remaining@, stage, tier_index(tier), d) {
                    None => r == Err::<(), Error>(Error::Underflow),
                    Some(rem) => if old(self).amount_to_distribute + d > u64::MAX {
                        r == Err::<(), Error>(Error::Overflow)
                    } else {
                        &&& r is Ok
                        &&& final(self).tier_remaining@ == rem
                        &&& *final(self) == (Pool {
                            tier_remaining: final(self).tier_remaining,
                            amount_to_distribute: (old(self).amount_to_distribute + d) as u64,
                            ..*old(self)
                        })
                    },
                },
            },
            old(self).well_formed() ==> final(self).well_formed(),
            r is Err ==> *final(self) == *old(self),
    {
        let amount_to_distribute = self.collected_to_distributed(amount)?;
        let mut tier_remaining = self.tier_remaining;
        if stage != Stage::FinalStage {
            if let Some(t) = tier {
                tier_remaining[t] = error_sub(tier_remaining[t], amount_to_distribute)?;
            }
        }
        let total = error_add(self.amount_to_distribute, amount_to_distribute)?;
        self.tier_remaining = tier_remaining;
        self.amount_to_distribute = total;
        Ok(())
    }

    /// Sets the allocations of the tiers from their numbers of users and their
    /// thresholds: each investor of tier `i` may buy
    /// `tier_balance[i] * goal_max * PRECISION / price / total_shares`
    /// distributed tokens, and the tier as a whole that times its users.
    pub fn set_tier_allocations(
        &mut self,
        tier_users: [u32; TIERS_COUNT],
        tier_balance: [u64; TIERS_COUNT],
    ) -> (r: Result<(), Error>)
        ensures
            ({
                let shares = total_shares(tier_users@, tier_balance@);
                let goal_max = old(self).goal_max_collected;
                let price = old(self).price;
                if price == 0 || shares == 0 {
                    r == Err::<(), Error>(Error::DivisionByZero)
                } else if forall|i: int|
                    0 <= i < TIERS_COUNT ==> #[trigger] tier_fits(
                        tier_balance@[i],
                        tier_users@[i],
                        goal_max,
                        price,
                        shares,
                    ) {
                    &&& r is Ok
                    &&& forall|i: int|
                        0 <= i < TIERS_COUNT ==> #[trigger] final(self).tier_allocation@[i]
                            == per_investor(tier_balance@[i], goal_max, price, shares)
                    &&& forall|i: int|
                        0 <= i < TIERS_COUNT ==> #[trigger] final(self).tier_remaining@[i]
                            == per_investor(tier_balance@[i], goal_max, price, shares)
                            * tier_users@[i]
                } else {
                    r == Err::<(), Error>(Error::Overflow)
                }
            }),
            r is Ok ==> *final(self) == (Pool {
                tier_allocation: final(self).tier_allocation,
                tier_remaining: final(self).tier_remaining,
                ..*old(self)
            }),
            old(self).well_formed() ==> final(self).well_formed(),
            r is Err ==> *final(self) == *old(self),
    {
        let price = self.price as u128;
        let goal_max = self.goal_max_collected as u128;
        let mut shares_sum: u128 = 0;
        let mut i: usize = 0;
        while i < TIERS_COUNT
            invariant
                i <= TIERS_COUNT,
                shares_sum == shares_upto(tier_users@, tier_balance@, i as int),
                shares_sum <= i * (u64::MAX as int) * (u32::MAX as int),
            decreases TIERS_COUNT - i,
        {
            let b = tier_balance[i] as u128;
            let u = tier_users[i] as u128;
            proof {
                assert(b * u <= (u64::MAX as int) * (u32::MAX as int)) by (nonlinear_arith)
                    requires
                        b <= u64::MAX,
                        u <= u32::MAX,
                ;
            }
            shares_sum = shares_sum + b * u;
            i = i + 1;
        }
        if price == 0 || shares_sum == 0 {
            return Err(Error::DivisionByZero);
        }
        let ghost shares = shares_sum as int;
        let mut allocation = self.tier_allocation;
        let mut remaining = self.tier_remaining;
        let mut i: usize = 0;
        while i < TIERS_COUNT
            invariant
                i <= TIERS_COUNT,
                price == self.price,
                goal_max == self.goal_max_collected,
                price > 0,
                shares_sum > 0,
                shares == shares_sum,
                shares == total_shares(tier_users@, tier_balance@),
                forall|j: int|
                    0 <= j < i ==> #[trigger] tier_fits(
                        tier_balance@[j],
                        tier_users@[j],
                        self.goal_max_collected,
                        self.price,
                        shares,
                    ),
                forall|j: int|
                    0 <= j < i ==> #[trigger] allocation@[j] == per_investor(
                        tier_balance@[j],
                        self.goal_max_collected,
                        self.price,
                        shares,
                    ),
                forall|j: int|
                    0 <= j < i ==> #[trigger] remaining@[j] == per_investor(
                        tier_balance@[j],
                        self.goal_max_collected,
                        self.price,
                        shares,
                    ) * tier_users@[j],
            decreases TIERS_COUNT - i,
        {
            let b = tier_balance[i] as u128;
            proof {
                assert(b * goal_max <= u128::MAX) by (nonlinear_arith)
                    requires
                        b <= u64::MAX,
                        goal_max <= u64::MAX,
                ;
            }
            let weighted = b * goal_max;
            let scaled = match error_mul(weighted, PRECISION as u128) {
                Ok(v) => v,
                Err(e) => {
                    assert(!tier_fits(
                        tier_balance@[i as int],
                        tier_users@[i as int],
                        self.goal_max_collected,
                        self.price,
                        shares,
                    ));
                    return Err(e);
                },
            };
            let per = scaled / price / shares_sum;
            let tier_total = match error_mul(per, tier_users[i] as u128) {
                Ok(v) => v,
                Err(e) => {
                    assert(!tier_fits(
                        tier_balance@[i as int],
                        tier_users@[i as int],
                        self.goal_max_collected,
                        self.price,
                        shares,
                    ));
                    return Err(e);
                },
            };
            if tier_total > u64::MAX as u128 || per > u64::MAX as u128 {
                assert(!tier_fits(
                    tier_balance@[i as int],
                    tier_users@[i as int],
                    self.goal_max_collected,
                    self.price,
                    shares,
                ));
                return Err(Error::Overflow);
            }
            assert(tier_fits(
                tier_balance@[i as int],
                tier_users@[i as int],
                self.goal_max_collected,
                self.price,
                shares,
            ));
            allocation[i] = per as u64;
            remaining[i] = tier_total as u64;
            i = i + 1;
        }
        self.tier_allocation = allocation;
        self.tier_remaining = remaining;
        Ok(())
    }

    /// Errs unless the pool is initialized and started before `now`.
    pub fn was_started(&self, now: UnixTimestamp) -> (r: Result<(), ProgramError>)
        ensures
            self.version == UNINITIALIZED_VERSION ==> r == Err::<(), ProgramError>(
                ProgramError::UninitializedAccount,
            ),
            self.version != UNINITIALIZED_VERSION && self.time_start >= now ==> r == Err::<
                (),
                ProgramError,
            >(ProgramError::Custom(Error::CanParticipateOnlyInStartedPool.spec_code())),
            r is Ok <==> self.version != UNINITIALIZED_VERSION && self.time_start < now,
    {
        self.initialized()?;
        if self.time_start < now {
            Ok(())
        } else {
            Err(Error::CanParticipateOnlyInStartedPool.to_program_error())
        }
    }

    /// The stage in which an investment made at `now` takes part: the pool must
    /// be initialized and started before `now`, and `now` within the sale window.
    pub fn participation_stage(&self, now: UnixTimestamp) -> (r: Result<Stage, ProgramError>)
        ensures
            self.version == UNINITIALIZED_VERSION ==> r == Err::<Stage, ProgramError>(
                ProgramError::UninitializedAccount,
            ),
            self.version != UNINITIALIZED_VERSION && self.time_start >= now ==> r == Err::<
                Stage,
                ProgramError,
            >(ProgramError::Custom(Error::CanParticipateOnlyInStartedPool.spec_code())),
            self.version != UNINITIALIZED_VERSION && self.time_start < now && now
                > self.time_finish ==> r == Err::<Stage, ProgramError>(
                ProgramError::Custom(Error::CantDepositAtCurrentTime.spec_code()),
            ),
            self.version != UNINITIALIZED_VERSION && self.time_start < now && now
                <= self.time_finish ==> r == Ok::<Stage, ProgramError>(
                stage_at(now - self.time_start, self.time_table@),
            ),
    {
        self.was_started(now)?;
        match self.get_current_stage(now) {
            Ok(stage) => Ok(stage),
            Err(e) => Err(e.to_program_error()),
        }
    }

    /// Accepts an investment of `amount` in `stage` by an investor with
    /// `pool_lock_amount` locked under the thresholds `tier_balance` (both unused
    /// in the final stage). The amount must lie within the investment bounds and
    /// fit under the maximum goal; the stage policy may lower it. The accepted
    /// amount is added to the collected total and its conversion is credited.
    /// Returns the accepted amount.
    pub fn accept_investment(
        &mut self,
        stage: Stage,
        amount: u64,
        tier_balance: [u64; TIERS_COUNT],
        pool_lock_amount: u64,
    ) -> (r: Result<u64, Error>)
        ensures
            amount < old(self).amount_investment_min || amount > old(self).amount_investment_max
                ==> r == Err::<u64, Error>(Error::IncorrectDepositAmount),
            old(self).amount_investment_min <= amount <= old(self).amount_investment_max
                && old(self).amount_collected + amount > old(self).goal_max_collected ==> r
                == Err::<u64, Error>(Error::PoolAlreadyFull),
            old(self).amount_investment_min <= amount <= old(self).amount_investment_max
                && old(self).amount_collected + amount <= old(self).goal_max_collected ==> ({
                let tier = if stage == Stage::FinalStage {
                    None
                } else {
                    tier_of(tier_balance@, pool_lock_amount)
                };
                match stage_cap(stage, tier, amount, tier_balance@, old(self).tier_remaining@) {
                    None => r == Err::<u64, Error>(
                        Error::AccountOnThisTierCannotParticipateOnCurrentStage,
                    ),
                    Some(cap) => {
                        let allowed = min_u64(amount, cap);
                        match conversion(allowed, old(self).price) {
                            Err(e) => r == Err::<u64, Error>(e),
                            Ok(d) => match remaining_after(
                                old(self).tier_remaining@,
                                stage,
                                tier,
                                d,
                            ) {
                                None => r == Err::<u64, Error>(Error::Underflow),
                                Some(rem) => if old(self).amount_to_distribute + d > u64::MAX {
                                    r == Err::<u64, Error>(Error::Overflow)
                                } else {
                                    &&& r == Ok::<u64, Error>(allowed)
                                    &&& final(self).tier_remaining@ == rem
                                    &&& *final(self) == (Pool {
                                        tier_remaining: final(self).tier_remaining,
                                        amount_collected: (old(self).amount_collected
                                            + allowed) as u64,
                                        amount_to_distribute: (old(self).amount_to_distribute
                                            + d) as u64,
                                        ..*old(self)
                                    })
                                },
                            },
                        }
                    },
                }
            }),
            old(self).well_formed() ==> final(self).well_formed(),
            r is Err ==> *final(self) == *old(self),
    {
        if amount < self.amount_investment_min || amount > self.amount_investment_max {
            return Err(Error::IncorrectDepositAmount);
        }
        if self.amount_collected as u128 + amount as u128 > self.goal_max_collected as u128 {
            return Err(Error::PoolAlreadyFull);
        }
        let (allowed, tier) = if stage != Stage::FinalStage {
            self.stage_investment(amount, stage, tier_balance, pool_lock_amount)?
        } else {
            (amount, None)
        };
        let collected = self.amount_collected + allowed;
        self.update_distributed_from_collected(allowed, tier, stage)?;
        self.amount_collected = collected;
        Ok(allowed)
    }

    /// What a claim at `now` pays for `amount` burned pool tokens, taken from
    /// `account_pool`: after the sale, a successful pool pays the conversion from
    /// its distribution account, a failed one refunds from its collection account.
    pub fn claim_payout(&self, now: UnixTimestamp, amount: u64, account_pool: Pubkey) -> (r:
        Result<Payout, ProgramError>)
        ensures
            ({
                let started = self.version != UNINITIALIZED_VERSION && self.time_start < now;
                let success = self.amount_collected >= self.goal_min_collected;
                let source = if success {
                    self.account_distribution
                } else {
                    self.account_collection
                };
                if self.version == UNINITIALIZED_VERSION {
                    r == Err::<Payout, ProgramError>(ProgramError::UninitializedAccount)
                } else if self.time_start >= now {
                    r == Err::<Payout, ProgramError>(
                        ProgramError::Custom(Error::CanParticipateOnlyInStartedPool.spec_code()),
                    )
                } else if now < self.time_finish {
                    r == Err::<Payout, ProgramError>(
                        ProgramError::Custom(Error::CantClaimFromActivePool.spec_code()),
                    )
                } else if account_pool.0@ != source.0@ {
                    r == Err::<Payout, ProgramError>(
                        ProgramError::Custom(Error::WrongPoolAccountToSendTokensFrom.spec_code()),
                    )
                } else if !success {
                    r == Ok::<Payout, ProgramError>(Payout::Refund(amount))
                } else {
                    match conversion(amount, self.price) {
                        Ok(d) => r == Ok::<Payout, ProgramError>(Payout::Distribution(d)),
                        Err(e) => r == Err::<Payout, ProgramError>(
                            ProgramError::Custom(e.spec_code()),
                        ),
                    }
                }
            }),
    {
        self.was_started(now)?;
        if now < self.time_finish {
            return Err(Error::CantClaimFromActivePool.to_program_error());
        }
        if self.success() {
            if account_pool != self.account_distribution {
                return Err(Error::WrongPoolAccountToSendTokensFrom.to_program_error());
            }
            match self.collected_to_distributed(amount) {
                Ok(d) => Ok(Payout::Distribution(d)),
                Err(e) => Err(e.to_program_error()),
            }
        } else {
            if account_pool != self.account_collection {
                return Err(Error::WrongPoolAccountToSendTokensFrom.to_program_error());
            }
            Ok(Payout::Refund(amount))
        }
    }

    /// What the owner may withdraw at `now` from `account_from`, which holds
    /// `balance`: after the sale, everything but what the investors are owed. A
    /// successful pool owes the amount to distribute from its distribution
    /// account; a failed one owes the collected amount from its collection account.
    pub fn withdraw_amount(&self, now: UnixTimestamp, account_from: Pubkey, balance: u64) -> (r:
        Result<u64, ProgramError>)
        ensures
            ({
                let success = self.amount_collected >= self.goal_min_collected;
                let owed: Option<u64> = if account_from.0@ == self.account_collection.0@ {
                    Some(if success { 0u64 } else { self.amount_collected })
                } else if account_from.0@ == self.account_distribution.0@ {
                    Some(if success { self.amount_to_distribute } else { 0u64 })
                } else {
                    None
                };
                if self.version == UNINITIALIZED_VERSION {
                    r == Err::<u64, ProgramError>(ProgramError::UninitializedAccount)
                } else if self.time_start >= now {
                    r == Err::<u64, ProgramError>(
                        ProgramError::Custom(Error::CanParticipateOnlyInStartedPool.spec_code()),
                    )
                } else if now < self.time_finish {
                    r == Err::<u64, ProgramError>(
                        ProgramError::Custom(Error::CantWithdrawFromActivePool.spec_code()),
                    )
                } else {
                    match owed {
                        None => r == Err::<u64, ProgramError>(
                            ProgramError::Custom(Error::WrongPoolAccountToSendTokensFrom.spec_code()),
                        ),
                        Some(o) => if balance < o {
                            r == Err::<u64, ProgramError>(
                                ProgramError::Custom(Error::Underflow.spec_code()),
                            )
                        } else {
                            r == Ok::<u64, ProgramError>((balance - o) as u64)
                        },
                    }
                }
            }),
    {
        self.was_started(now)?;
        if now < self.time_finish {
            return Err(Error::CantWithdrawFromActivePool.to_program_error());
        }
        let success = self.success();
        let adjustment = if account_from == self.account_collection {
            if success {
                0
            } else {
                self.amount_collected
            }
        } else if account_from == self.account_distribution {
            if success {
                self.amount_to_distribute
            } else {
                0
            }
        } else {
            return Err(Error::WrongPoolAccountToSendTokensFrom.to_program_error());
        };
        match error_sub(balance, adjustment) {
            Ok(v) => Ok(v),
            Err(e) => Err(e.to_program_error()),
        }
    }

    /// Starts the sale at `now`, which must lie within the sale window, and sets
    /// the tier allocations from the staking pool's tiers at this instant.
    pub fn start(
        &mut self,
        now: UnixTimestamp,
        tier_users: [u32; TIERS_COUNT],
        tier_balance: [u64; TIERS_COUNT],
    ) -> (r: Result<(), ProgramError>)
        ensures
            old(self).version == UNINITIALIZED_VERSION ==> r == Err::<(), ProgramError>(
                ProgramError::UninitializedAccount,
            ),
            old(self).version != UNINITIALIZED_VERSION && (now < old(self).time_start || now
                > old(self).time_finish) ==> r == Err::<(), ProgramError>(
                ProgramError::Custom(Error::InvalidPoolTimeFrame.spec_code()),
            ),
            old(self).version != UNINITIALIZED_VERSION && old(self).time_start <= now
                <= old(self).time_finish ==> ({
                let shares = total_shares(tier_users@, tier_balance@);
                let goal_max = old(self).goal_max_collected;
                let price = old(self).price;
                if price == 0 || shares == 0 {
                    r == Err::<(), ProgramError>(
                        ProgramError::Custom(Error::DivisionByZero.spec_code()),
                    )
                } else if forall|i: int|
                    0 <= i < TIERS_COUNT ==> #[trigger] tier_fits(
                        tier_balance@[i],
                        tier_users@[i],
                        goal_max,
                        price,
                        shares,
                    ) {
                    &&& r is Ok
                    &&& forall|i: int|
                        0 <= i < TIERS_COUNT ==> #[trigger] final(self).tier_allocation@[i]
                            == per_investor(tier_balance@[i], goal_max, price, shares)
                    &&& forall|i: int|
                        0 <= i < TIERS_COUNT ==> #[trigger] final(self).tier_remaining@[i]
                            == per_investor(tier_balance@[i], goal_max, price, shares)
                            * tier_users@[i]
                } else {
                    r == Err::<(), ProgramError>(ProgramError::Custom(Error::Overflow.spec_code()))
                }
            }),
            r is Ok ==> *final(self) == (Pool {
                tier_allocation: final(self).tier_allocation,
                tier_remaining: final(self).tier_remaining,
                ..*old(self)
            }),
            old(self).well_formed() ==> final(self).well_formed(),
            r is Err ==> *final(self) == *old(self),
    {
        self.initialized()?;
        if now < self.time_start || now > self.time_finish {
            return Err(Error::InvalidPoolTimeFrame.to_program_error());
        }
        match self.set_tier_allocations(tier_users, tier_balance) {
            Ok(()) => Ok(()),
            Err(e) => Err(e.to_program_error()),
        }
    }

    /// The stage of the sale at `now`; errs outside `[time_start, time_finish]`.
    pub fn get_current_stage(&self, now: UnixTimestamp) -> (r: Result<Stage, Error>)
        ensures
            r == (if now < self.time_start || now > self.time_finish {
                Err::<Stage, Error>(Error::CantDepositAtCurrentTime)
            } else {
                Ok(stage_at(now - self.time_start, self.time_table@))
            }),
    {
        if self.time_start > now || self.time_finish < now {
            return Err(Error::CantDepositAtCurrentTime);
        }
        let mut accumulate: i128 = now as i128 - self.time_start as i128;
        let mut i: usize = 0;
        while i < STAGES_ACTIVE_COUNT
            invariant
                i <= STAGES_ACTIVE_COUNT,
                self.time_start <= now <= self.time_finish,
                0 <= accumulate,
                i == 0 ==> accumulate == now - self.time_start,
                i == 1 ==> accumulate == now - self.time_start - self.time_table@[0]
                    && now - self.time_start >= self.time_table@[0],
                i == 2 ==> now - self.time_start >= self.time_table@[0] + self.time_table@[1],
            decreases STAGES_ACTIVE_COUNT - i,
        {
            let value = self.time_table[i] as i128;
            if accumulate < value {
                return if i == 0 {
                    Ok(Stage::InitialStage)
                } else {
                    Ok(Stage::TierAllocationStage)
                };
            }
            accumulate = accumulate - value;
            i = i + 1;
        }
        Ok(Stage::FinalStage)
    }

    /// Sizes an investment of `amount` in `stage` by an investor with
    /// `pool_lock_amount` locked: at most the tier's threshold in the initial
    /// stage, at most what remains of the tier's allocation in the tier
    /// allocation stage, and `amount` in the final stage. Returns the allowed
    /// amount and the investor's tier.
    pub fn stage_investment(
        &self,
        amount: u64,
        stage: Stage,
        tier_balance: [u64; TIERS_COUNT],
        pool_lock_amount: u64,
    ) -> (r: Result<(u64, Option<usize>), Error>)
        ensures
            ({
                let tier = tier_of(tier_balance@, pool_lock_amount);
                match stage_cap(stage, tier, amount, tier_balance@, self.tier_remaining@) {
                    None => r == Err::<(u64, Option<usize>), Error>(
                        Error::AccountOnThisTierCannotParticipateOnCurrentStage,
                    ),
                    Some(cap) => r matches Ok((allowed, t)) && allowed == min_u64(amount, cap)
                        && tier_index(t) == tier,
                }
            }),
            r matches Ok((_, t)) ==> (t matches Some(i) ==> i < TIERS_COUNT),
    {
        let tier = get_tier(tier_balance, pool_lock_amount);
        let possible_amount = match (stage, tier) {
            (Stage::InitialStage, Some(t)) => tier_balance[t],
            (Stage::TierAllocationStage, Some(t)) => self.tier_remaining[t],
            (Stage::FinalStage, _) => amount,
            _ => return Err(Error::AccountOnThisTierCannotParticipateOnCurrentStage),
        };
        let allowed = if amount <= possible_amount {
            amount
        } else {
            possible_amount
        };
        Ok((allowed, tier))
    }
}

} // verus!
