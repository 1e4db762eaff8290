use sol_starter::program_error::ProgramError;
use sol_starter::staking::error::Error;
use sol_starter::staking::instruction::InitializePoolInput;
use sol_starter::staking::state::{
    get_tier, PoolLock, PoolTransit, StakePool, StateVersion, TransitDirection,
};
use sol_starter::Pubkey;

fn key(n: u8) -> Pubkey {
    Pubkey([n; 32])
}

fn stake_pool() -> StakePool {
    StakePool {
        version: StateVersion::V1,
        token_account_sos: key(1),
        pool_mint_xsos: key(2),
        ido_authority: key(3),
        tier_users: [5, 5, 5, 5],
        tier_balance: [1000, 2000, 3000, 4000],
        transit_incoming: 100,
        transit_outgoing: 60,
        pool_active_until: 0,
    }
}

fn transit() -> PoolTransit {
    PoolTransit {
        version: StateVersion::Uninitialized,
        pool: key(1),
        direction: TransitDirection::default(),
        user_wallet: key(4),
        token_account_sos: key(5),
        transit_from: 0,
        transit_until: 0,
        amount_claimed: 0,
    }
}

#[test]
fn tiers_of_balances() {
    let tiers = [5000, 9000, 16000, 30000];
    assert_eq!(get_tier(tiers, 0), None);
    assert_eq!(get_tier(tiers, 4999), None);
    assert_eq!(get_tier(tiers, 5000), Some(0));
    assert_eq!(get_tier(tiers, 8999), Some(0));
    assert_eq!(get_tier(tiers, 9000), Some(1));
    assert_eq!(get_tier(tiers, 29999), Some(2));
    assert_eq!(get_tier(tiers, 30000), Some(3));
    assert_eq!(get_tier(tiers, u64::MAX), Some(3));
    assert_eq!(get_tier([3, 6, 9, 12], 7), Some(1));
}

#[test]
fn tiers_grow_with_balance() {
    let tiers = [10, 20, 20, 40];
    let rank = |t: Option<usize>| t.map_or(0, |i| i + 1);
    let mut last = 0;
    for balance in 0..60u64 {
        let r = rank(get_tier(tiers, balance));
        assert!(r >= last);
        last = r;
    }
    assert_eq!(get_tier(tiers, 20), Some(2));
}

#[test]
fn lock_moves_user_up() {
    let mut pool = stake_pool();
    pool.lock(10, 1500, 1000).unwrap();
    assert_eq!(pool.tier_users, [4, 6, 5, 5]);
    pool.lock(10, 0, 3500).unwrap();
    assert_eq!(pool.tier_users, [4, 6, 6, 5]);
    pool.lock(10, 0, 500).unwrap();
    assert_eq!(pool.tier_users, [4, 6, 6, 5]);
    pool.lock(10, 1000, 500).unwrap();
    assert_eq!(pool.tier_users, [4, 6, 6, 5]);
}

#[test]
fn lock_errors() {
    let mut pool = StakePool {
        pool_active_until: 50,
        ..stake_pool()
    };
    assert_eq!(pool.lock(49, 0, 1000), Err(Error::CannotLockWhenPoolIsActive));
    assert_eq!(pool.lock(50, u64::MAX, 1), Err(Error::Overflow));
    let mut empty = StakePool {
        tier_users: [0, 0, 0, u32::MAX],
        ..stake_pool()
    };
    assert_eq!(empty.lock(0, 1000, 1000), Err(Error::Underflow));
    assert_eq!(empty.lock(0, 0, 4000), Err(Error::Overflow));
    assert_eq!(empty.tier_users, [0, 0, 0, u32::MAX]);
}

#[test]
fn unlock_moves_user_down() {
    let mut pool = stake_pool();
    pool.unlock(10, 3500, 1000).unwrap();
    assert_eq!(pool.tier_users, [5, 6, 4, 5]);
    pool.unlock(10, 1500, 1000).unwrap();
    assert_eq!(pool.tier_users, [4, 6, 4, 5]);
    pool.unlock(10, 500, 500).unwrap();
    assert_eq!(pool.tier_users, [4, 6, 4, 5]);
    assert_eq!(pool.tier_balance, [1000, 2000, 3000, 4000]);
}

#[test]
fn unlock_errors() {
    let mut pool = StakePool {
        pool_active_until: 50,
        ..stake_pool()
    };
    assert_eq!(pool.unlock(10, 1000, 1), Err(Error::CannotUnlockWhenPoolIsActive));
    assert_eq!(pool.unlock(50, 10, 11), Err(Error::Underflow));
    let mut empty = StakePool {
        tier_users: [0, 0, 0, 0],
        ..stake_pool()
    };
    assert_eq!(empty.unlock(0, 1000, 1), Err(Error::Underflow));
}

#[test]
fn start_pool_freezes_locks() {
    let mut pool = stake_pool();
    assert_eq!(pool.start_pool(100, 99), Err(Error::PoolMustBeActiveForSomeTime));
    assert_eq!(pool.start_pool(100, 200), Ok(()));
    assert_eq!(pool.pool_active_until, 200);
    assert_eq!(pool.lock(150, 0, 1), Err(Error::CannotLockWhenPoolIsActive));
    assert_eq!(pool.lock(200, 0, 1), Ok(()));
}

#[test]
fn initialize_stake_pool() {
    let mut pool = StakePool {
        version: StateVersion::default(),
        ..stake_pool()
    };
    let input = InitializePoolInput {
        tier_balance: [1, 2, 3, 4],
        ido_authority: key(9),
        transit_incoming: 7,
        transit_outgoing: 8,
    };
    assert_eq!(pool.initialize(&input, key(10), key(11)), Ok(()));
    assert_eq!(pool.version, StateVersion::V1);
    assert_eq!(pool.tier_users, [0, 0, 0, 0]);
    assert_eq!(pool.tier_balance, [1, 2, 3, 4]);
    assert_eq!(pool.transit_incoming, 7);
    assert_eq!(pool.transit_outgoing, 8);
    assert_eq!(
        pool.initialize(&input, key(10), key(11)),
        Err(ProgramError::AccountAlreadyInitialized)
    );
    assert_eq!(pool.initialized(), Ok(()));
}

#[test]
fn transit_lifecycle() {
    let mut t = transit();
    assert_eq!(t.initialized(), Err(ProgramError::UninitializedAccount));
    t.begin(TransitDirection::Incoming, 1_000, 100).unwrap();
    assert_eq!(t.version, StateVersion::V1);
    assert_eq!(t.direction, TransitDirection::Incoming);
    assert_eq!(t.transit_from, 1_000);
    assert_eq!(t.transit_until, 1_100);
    assert_eq!(
        t.begin(TransitDirection::Outgoing, 1_000, 100),
        Err(ProgramError::AccountAlreadyInitialized)
    );
    assert_eq!(t.finish(1_000, 500), Err(Error::CannotTransitAnythingNow));
    assert_eq!(t.finish(1_030, 500), Ok(150));
    assert_eq!(t.amount_claimed, 150);
    assert_eq!(t.finish(1_030, 350), Err(Error::CannotTransitAnythingNow));
    assert_eq!(t.finish(1_050, 350), Ok(100));
    assert_eq!(t.finish(5_000, 250), Ok(250));
    assert_eq!(t.amount_claimed, 500);
    assert_eq!(t.finish(6_000, 0), Err(Error::CannotTransitAnythingNow));
}

#[test]
fn transit_begin_overflow() {
    let mut t = transit();
    assert_eq!(
        t.begin(TransitDirection::Outgoing, i64::MAX, 1),
        Err(ProgramError::Custom(Error::Overflow.code()))
    );
    assert_eq!(t.version, StateVersion::Uninitialized);
}

#[test]
fn lock_record_versions() {
    let lock = PoolLock {
        version: StateVersion::Uninitialized,
        pool: key(1),
        user_wallet: key(2),
        token_account_xsos: key(3),
    };
    assert_eq!(lock.uninitialized(), Ok(()));
    assert_eq!(lock.initialized(), Err(ProgramError::UninitializedAccount));
}

#[test]
fn staking_error_codes() {
    assert_eq!(Error::WrongOwner.code(), 0);
    assert_eq!(Error::CannotTransitAnythingNow.code(), 10);
    assert_eq!(Error::PoolTransitMustBeOfProvidedPool.code(), 14);
    assert_eq!(
        Error::CannotTransitAnythingNow.message(),
        "Cannot transit anything now"
    );
}
