//! Records of the staking facility and the tier classifier.
use vstd::prelude::*;

verus! {

use crate::program_error::ProgramError;
use crate::staking::error::Error;
use crate::staking::instruction::InitializePoolInput;
use crate::staking::math::{finish, releasable};
use crate::{Pubkey, UnixTimestamp, TIERS_COUNT};

/// Version of a record's layout.
#[derive(Clone, Copy, Debug, PartialEq, Eq, Structural)]
pub enum StateVersion {
    /// Not initialized yet
    Uninitialized,
    /// Version 1
    V1,
}

impl Default for StateVersion {
    fn default() -> (r: Self)
        ensures
            r == StateVersion::Uninitialized,
    {
        StateVersion::Uninitialized
    }
}

/// Direction of a transit.
#[derive(Clone, Copy, Debug, PartialEq, Eq, Structural)]
pub enum TransitDirection {
    /// Not initialized yet
    Uninitialized,
    /// From the user into the pool
    Incoming,
    /// From the pool to the user
    Outgoing,
}

impl Default for TransitDirection {
    fn default() -> (r: Self)
        ensures
            r == TransitDirection::Uninitialized,
    {
        TransitDirection::Uninitialized
    }
}

/// The staking pool.
#[derive(Clone, Copy, Debug)]
pub struct StakePool {
    /// Version
    pub version: StateVersion,
    /// Account accumulating staked tokens
    pub token_account_sos: Pubkey,
    /// Mint issuing pool tokens to the users
    pub pool_mint_xsos: Pubkey,
    /// Authority controlling lock freeze and unfreeze
    pub ido_authority: Pubkey,
    /// Number of users in each tier
    pub tier_users: [u32; TIERS_COUNT],
    /// Balance qualifying for each tier, in ascending order
    pub tier_balance: [u64; TIERS_COUNT],
    /// Seconds that tokens stay in an incoming transit
    pub transit_incoming: UnixTimestamp,
    /// Seconds that tokens stay in an outgoing transit
    pub transit_outgoing: UnixTimestamp,
    /// While the ledger clock is before this time, locks cannot change
    pub pool_active_until: UnixTimestamp,
}

/// Tokens on their way into or out of the pool, released over time.
#[derive(Clone, Copy, Debug)]
pub struct PoolTransit {
    /// Version
    pub version: StateVersion,
    /// The pool this transit belongs to
    pub pool: Pubkey,
    /// Whether the tokens come into the pool or go out of it
    pub direction: TransitDirection,
    /// User wallet controlling this transit
    pub user_wallet: Pubkey,
    /// Account holding the tokens in transit
    pub token_account_sos: Pubkey,
    /// Start of the transit window
    pub transit_from: UnixTimestamp,
    /// End of the transit window
    pub transit_until: UnixTimestamp,
    /// Amount already released from this transit
    pub amount_claimed: u64,
}

/// A user's lock in a pool.
#[derive(Clone, Copy, Debug)]
pub struct PoolLock {
    /// Version
    pub version: StateVersion,
    /// The pool this lock belongs to
    pub pool: Pubkey,
    /// User wallet controlling this lock
    pub user_wallet: Pubkey,
    /// Token account holding the locked tokens
    pub token_account_xsos: Pubkey,
}

/// Errs unless a record of version `version` is still uninitialized.
fn require_uninitialized(version: StateVersion) -> (r: Result<(), ProgramError>)
    ensures
        r == (if version == StateVersion::Uninitialized {
            Ok::<(), ProgramError>(())
        } else {
            Err(ProgramError::AccountAlreadyInitialized)
        }),
{
    if version == StateVersion::Uninitialized {
        Ok(())
    } else {
        Err(ProgramError::AccountAlreadyInitialized)
    }
}

/// Errs unless a record of version `version` is initialized.
fn require_initialized(version: StateVersion) -> (r: Result<(), ProgramError>)
    ensures
        r == (if version != StateVersion::Uninitialized {
            Ok::<(), ProgramError>(())
        } else {
            Err(ProgramError::UninitializedAccount)
        }),
{
    if version != StateVersion::Uninitialized {
        Ok(())
    } else {
        Err(ProgramError::UninitializedAccount)
    }
}

/// The tier counters after one user leaves tier `from` and then joins tier `to`;
/// a counter that would go below zero or past its maximum is an error.
pub open spec fn tier_move(users: Seq<u32>, from: Option<int>, to: Option<int>) -> Result<
    Seq<u32>,
    Error,
> {
    let left = match from {
        Some(o) => if users[o] == 0 {
            None
        } else {
            Some(users.update(o, (users[o] - 1) as u32))
        },
        None => Some(users),
    };
    match left {
        None => Err(Error::Underflow),
        Some(l) => match to {
            Some(n) => if l[n] == u32::MAX {
                Err(Error::Overflow)
            } else {
                Ok(l.update(n, (l[n] + 1) as u32))
            },
            None => Ok(l),
        },
    }
}

/// Applies `tier_move` to a counter array.
fn move_tier_user(users: [u32; TIERS_COUNT], from: Option<usize>, to: Option<usize>) -> (r: Result<
    [u32; TIERS_COUNT],
    Error,
>)
    requires
        from matches Some(o) ==> o < TIERS_COUNT,
        to matches Some(n) ==> n < TIERS_COUNT,
    ensures
        match tier_move(users@, tier_index(from), tier_index(to)) {
            Ok(u) => r matches Ok(a) && a@ == u,
            Err(e) => r == Err::<[u32; TIERS_COUNT], Error>(e),
        },
{
    let mut users = users;
    if let Some(o) = from {
        if users[o] == 0 {
            return Err(Error::Underflow);
        }
        users[o] = users[o] - 1;
    }
    if let Some(n) = to {
        if users[n] == u32::MAX {
            return Err(Error::Overflow);
        }
        users[n] = users[n] + 1;
    }
    Ok(users)
}

/// The highest index below `n` whose threshold `balance` reaches.
pub open spec fn tier_below(thresholds: Seq<u64>, balance: u64, n: int) -> Option<int>
    decreases n,
{
    if n <= 0 {
        None
    } else if balance >= thresholds[n - 1] {
        Some(n - 1)
    } else {
        tier_below(thresholds, balance, n - 1)
    }
}

/// The tier of `balance`: the highest index whose threshold it reaches, if any.
pub open spec fn tier_of(thresholds: Seq<u64>, balance: u64) -> Option<int> {
    tier_below(thresholds, balance, thresholds.len() as int)
}

/// A tier index as a mathematical integer.
pub open spec fn tier_index(t: Option<usize>) -> Option<int> {
    match t {
        Some(i) => Some(i as int),
        None => None,
    }
}

/// A tier ranked so that having no tier is lowest.
pub open spec fn tier_rank(t: Option<int>) -> int {
    match t {
        Some(i) => i + 1,
        None => 0,
    }
}

/// A larger balance never has a lower tier.
pub proof fn lemma_tier_monotonic(thresholds: Seq<u64>, low: u64, high: u64)
    requires
        low <= high,
    ensures
        tier_rank(tier_of(thresholds, low)) <= tier_rank(tier_of(thresholds, high)),
{
    lemma_tier_below_monotonic(thresholds, low, high, thresholds.len() as int);
}

proof fn lemma_tier_below_monotonic(thresholds: Seq<u64>, low: u64, high: u64, n: int)
    requires
        low <= high,
    ensures
        tier_rank(tier_below(thresholds, low, n)) <= tier_rank(tier_below(thresholds, high, n)),
    decreases n,
{
    if n > 0 {
        lemma_tier_below_monotonic(thresholds, low, high, n - 1);
        lemma_tier_below_bounded(thresholds, low, n - 1);
    }
}

proof fn lemma_tier_below_bounded(thresholds: Seq<u64>, balance: u64, n: int)
    ensures
        tier_rank(tier_below(thresholds, balance, n)) <= if n > 0 { n } else { 0 },
        tier_below(thresholds, balance, n) matches Some(i) ==> 0 <= i < n,
    decreases n,
{
    if n > 0 {
        lemma_tier_below_bounded(thresholds, balance, n - 1);
    }
}

impl StakePool {
    /// Size of the record in the ledger.
    pub const LEN: usize = 169;

    /// Errs if the pool is initialized already.
    pub fn uninitialized(&self) -> (r: Result<(), ProgramError>)
        ensures
            r is Ok <==> self.version == StateVersion::Uninitialized,
            r is Err ==> r == Err::<(), ProgramError>(ProgramError::AccountAlreadyInitialized),
    {
        require_uninitialized(self.version)
    }

    /// Errs if the pool is not initialized.
    pub fn initialized(&self) -> (r: Result<(), ProgramError>)
        ensures
            r is Ok <==> self.version != StateVersion::Uninitialized,
            r is Err ==> r == Err::<(), ProgramError>(ProgramError::UninitializedAccount),
    {
        require_initialized(self.version)
    }

    /// Whether `a` and `b` agree on every field but the tier counters.
    pub open spec fn same_but_tier_users(a: StakePool, b: StakePool) -> bool {
        &&& a.version == b.version
        &&& a.token_account_sos == b.token_account_sos
        &&& a.pool_mint_xsos == b.pool_mint_xsos
        &&& a.ido_authority == b.ido_authority
        &&& a.tier_balance == b.tier_balance
        &&& a.transit_incoming == b.transit_incoming
        &&& a.transit_outgoing == b.transit_outgoing
        &&& a.pool_active_until == b.pool_active_until
    }

    /// Initializes the pool from `input`, with the accounts that hold its tokens
    /// and mint its pool tokens; every tier starts empty.
    pub fn initialize(
        &mut self,
        input: &InitializePoolInput,
        token_account_sos: Pubkey,
        pool_mint_xsos: Pubkey,
    ) -> (r: Result<(), ProgramError>)
        ensures
            r is Ok <==> old(self).version == StateVersion::Uninitialized,
            r is Err ==> r == Err::<(), ProgramError>(ProgramError::AccountAlreadyInitialized)
                && *final(self) == *old(self),
            r is Ok ==> {
                &&& final(self).version == StateVersion::V1
                &&& final(self).tier_users@ == seq![0u32, 0u32, 0u32, 0u32]
                &&& final(self).tier_balance == input.tier_balance
                &&& final(self).transit_incoming == input.transit_incoming
                &&& final(self).transit_outgoing == input.transit_outgoing
                &&& final(self).ido_authority == input.ido_authority
                &&& final(self).token_account_sos == token_account_sos
                &&& final(self).pool_mint_xsos == pool_mint_xsos
                &&& final(self).pool_active_until == old(self).pool_active_until
            },
    {
        self.uninitialized()?;
        self.version = StateVersion::V1;
        self.tier_users = [0u32, 0u32, 0u32, 0u32];
        self.transit_incoming = input.transit_incoming;
        self.transit_outgoing = input.transit_outgoing;
        self.tier_balance = input.tier_balance;
        self.token_account_sos = token_account_sos;
        self.pool_mint_xsos = pool_mint_xsos;
        self.ido_authority = input.ido_authority;
        proof {
            assert(self.tier_users@ =~= seq![0u32, 0u32, 0u32, 0u32]);
        }
        Ok(())
    }

    /// Records that a user with `locked_amount` tokens locked adds `amount` more:
    /// the user moves to the tier of the new balance, if it has one.
    pub fn lock(&mut self, now: UnixTimestamp, locked_amount: u64, amount: u64) -> (r: Result<
        (),
        Error,
    >)
        ensures
            now < old(self).pool_active_until ==> r == Err::<(), Error>(
                Error::CannotLockWhenPoolIsActive,
            ),
            now >= old(self).pool_active_until && locked_amount + amount > u64::MAX ==> r
                == Err::<(), Error>(Error::Overflow),
            now >= old(self).pool_active_until && locked_amount + amount <= u64::MAX ==> {
                let to = tier_of(old(self).tier_balance@, (locked_amount + amount) as u64);
                let from = if to is Some {
                    tier_of(old(self).tier_balance@, locked_amount)
                } else {
                    None
                };
                match tier_move(old(self).tier_users@, from, to) {
                    Ok(u) => r is Ok && final(self).tier_users@ == u,
                    Err(e) => r == Err::<(), Error>(e),
                }
            },
            r is Ok ==> Self::same_but_tier_users(*final(self), *old(self)),
            r is Err ==> *final(self) == *old(self),
    {
        if now < self.pool_active_until {
            return Err(Error::CannotLockWhenPoolIsActive);
        }
        let new_value = match locked_amount.checked_add(amount) {
            Some(v) => v,
            None => return Err(Error::Overflow),
        };
        let old_tier = get_tier(self.tier_balance, locked_amount);
        let new_tier = get_tier(self.tier_balance, new_value);
        let from = if new_tier.is_some() {
            old_tier
        } else {
            None
        };
        self.tier_users = move_tier_user(self.tier_users, from, new_tier)?;
        Ok(())
    }

    /// Records that a user with `locked_amount` tokens locked takes `amount` out:
    /// the user leaves the tier of the old balance and joins the tier of the new
    /// one, where they have them.
    pub fn unlock(&mut self, now: UnixTimestamp, locked_amount: u64, amount: u64) -> (r: Result<
        (),
        Error,
    >)
        ensures
            now < old(self).pool_active_until ==> r == Err::<(), Error>(
                Error::CannotUnlockWhenPoolIsActive,
            ),
            now >= old(self).pool_active_until ==> {
                let from = tier_of(old(self).tier_balance@, locked_amount);
                let to = tier_of(old(self).tier_balance@, (locked_amount - amount) as u64);
                match tier_move(old(self).tier_users@, from, None) {
                    Err(e) => r == Err::<(), Error>(e),
                    Ok(_) => if amount > locked_amount {
                        r == Err::<(), Error>(Error::Underflow)
                    } else {
                        match tier_move(old(self).tier_users@, from, to) {
                            Ok(u) => r is Ok && final(self).tier_users@ == u,
                            Err(e) => r == Err::<(), Error>(e),
                        }
                    },
                }
            },
            r is Ok ==> Self::same_but_tier_users(*final(self), *old(self)),
            r is Err ==> *final(self) == *old(self),
    {
        if now < self.pool_active_until {
            return Err(Error::CannotUnlockWhenPoolIsActive);
        }
        let old_tier = get_tier(self.tier_balance, locked_amount);
        if let Some(o) = old_tier {
            if self.tier_users[o] == 0 {
                return Err(Error::Underflow);
            }
        }
        let new_value = match locked_amount.checked_sub(amount) {
            Some(v) => v,
            None => return Err(Error::Underflow),
        };
        let new_tier = get_tier(self.tier_balance, new_value);
        self.tier_users = move_tier_user(self.tier_users, old_tier, new_tier)?;
        Ok(())
    }

    /// Freezes locks until `pool_active_until`, which must not be in the past.
    pub fn start_pool(&mut self, now: UnixTimestamp, pool_active_until: UnixTimestamp) -> (r: Result<
        (),
        Error,
    >)
        ensures
            now > pool_active_until ==> r == Err::<(), Error>(Error::PoolMustBeActiveForSomeTime)
                && *final(self) == *old(self),
            now <= pool_active_until ==> r is Ok && *final(self) == (StakePool {
                pool_active_until,
                ..*old(self)
            }),
    {
        if now > pool_active_until {
            return Err(Error::PoolMustBeActiveForSomeTime);
        }
        self.pool_active_until = pool_active_until;
        Ok(())
    }
}

impl PoolLock {
    /// Size of the record in the ledger.
    pub const LEN: usize = 97;

    /// Errs if the lock is initialized already.
    pub fn uninitialized(&self) -> (r: Result<(), ProgramError>)
        ensures
            r is Ok <==> self.version == StateVersion::Uninitialized,
            r is Err ==> r == Err::<(), ProgramError>(ProgramError::AccountAlreadyInitialized),
    {
        require_uninitialized(self.version)
    }

    /// Errs if the lock is not initialized.
    pub fn initialized(&self) -> (r: Result<(), ProgramError>)
        ensures
            r is Ok <==> self.version != StateVersion::Uninitialized,
            r is Err ==> r == Err::<(), ProgramError>(ProgramError::UninitializedAccount),
    {
        require_initialized(self.version)
    }
}

impl PoolTransit {
    /// Size of the record in the ledger.
    pub const LEN: usize = 122;

    /// Errs if the transit is initialized already.
    pub fn uninitialized(&self) -> (r: Result<(), ProgramError>)
        ensures
            r is Ok <==> self.version == StateVersion::Uninitialized,
            r is Err ==> r == Err::<(), ProgramError>(ProgramError::AccountAlreadyInitialized),
    {
        require_uninitialized(self.version)
    }

    /// Errs if the transit is not initialized.
    pub fn initialized(&self) -> (r: Result<(), ProgramError>)
        ensures
            r is Ok <==> self.version != StateVersion::Uninitialized,
            r is Err ==> r == Err::<(), ProgramError>(ProgramError::UninitializedAccount),
    {
        require_initialized(self.version)
    }

    /// Opens the transit in `direction` at `now`, for a window of `duration`
    /// seconds; the transit must not be open already.
    pub fn begin(&mut self, direction: TransitDirection, now: UnixTimestamp, duration: UnixTimestamp) -> (r:
        Result<(), ProgramError>)
        ensures
            old(self).version != StateVersion::Uninitialized ==> r == Err::<(), ProgramError>(
                ProgramError::AccountAlreadyInitialized,
            ),
            old(self).version == StateVersion::Uninitialized && !(i64::MIN <= now + duration
                <= i64::MAX) ==> r == Err::<(), ProgramError>(
                ProgramError::Custom(Error::Overflow.spec_code()),
            ),
            old(self).version == StateVersion::Uninitialized && i64::MIN <= now + duration
                <= i64::MAX ==> r is Ok && *final(self) == (PoolTransit {
                version: StateVersion::V1,
                direction,
                transit_from: now,
                transit_until: (now + duration) as i64,
                ..*old(self)
            }),
            r is Err ==> *final(self) == *old(self),
    {
        self.uninitialized()?;
        let until = match now.checked_add(duration) {
            Some(t) => t,
            None => return Err(Error::Overflow.to_program_error()),
        };
        self.version = StateVersion::V1;
        self.direction = direction;
        self.transit_from = now;
        self.transit_until = until;
        Ok(())
    }

    /// Releases what has matured at `now` of the `remaining_amount` tokens still in
    /// the transit, adds it to the amount claimed, and returns it.
    pub fn finish(&mut self, now: UnixTimestamp, remaining_amount: u64) -> (r: Result<u64, Error>)
        ensures
            ({
                let due = releasable(
                    old(self).transit_from as int,
                    now as int,
                    old(self).transit_until as int,
                    old(self).amount_claimed as int,
                    remaining_amount as int,
                );
                match due {
                    None => r == Err::<u64, Error>(Error::CannotTransitAnythingNow),
                    Some(x) => if old(self).amount_claimed + x > u64::MAX {
                        r == Err::<u64, Error>(Error::Overflow)
                    } else {
                        r == Ok::<u64, Error>(x as u64) && *final(self) == (PoolTransit {
                            amount_claimed: (old(self).amount_claimed + x) as u64,
                            ..*old(self)
                        })
                    },
                }
            }),
            r is Err ==> *final(self) == *old(self),
    {
        let amount = match finish(
            self.transit_from,
            now,
            self.transit_until,
            self.amount_claimed,
            remaining_amount,
        ) {
            Some(a) => a,
            None => return Err(Error::CannotTransitAnythingNow),
        };
        self.amount_claimed = match self.amount_claimed.checked_add(amount) {
            Some(c) => c,
            None => return Err(Error::Overflow),
        };
        Ok(amount)
    }
}

/// Gets the tier that a locked amount qualifies for.
pub fn get_tier(tier_balance: [u64; TIERS_COUNT], pool_lock_amount: u64) -> (r: Option<usize>)
    ensures
        tier_index(r) == tier_of(tier_balance@, pool_lock_amount),
        r matches Some(i) ==> i < TIERS_COUNT,
{
    let mut n: usize = TIERS_COUNT;
    while n > 0
        invariant
            n <= TIERS_COUNT,
            tier_of(tier_balance@, pool_lock_amount) == tier_below(tier_balance@, pool_lock_amount, n as int),
        decreases n,
    {
        if pool_lock_amount >= tier_balance[n - 1] {
            return Some(n - 1);
        }
        n = n - 1;
    }
    None
}

} // verus!
