use sol_starter::ido::error::Error;
use sol_starter::ido::state::{KycRequirement, MintWhitelist, Pool, Stage, PRECISION};
use sol_starter::{Pubkey, TIERS_COUNT};

fn key(n: u8) -> Pubkey {
    Pubkey([n; 32])
}

fn pool_new(price: u64, goal_max: u64) -> Pool {
    Pool {
        version: 1,
        market: key(1),
        account_collection: key(2),
        account_distribution: key(3),
        mint_pool: key(4),
        mint_whitelist: MintWhitelist::NoKey(Pubkey::default()),
        price,
        goal_max_collected: goal_max,
        goal_min_collected: 10,
        amount_investment_min: 3,
        amount_investment_max: 30,
        time_start: 10,
        time_finish: 500,
        amount_collected: 10,
        amount_to_distribute: 10,
        owner: key(5),
        authority: key(6),
        authority_bump_seed: 10,
        kyc_requirement: KycRequirement::NotRequired,
        tier_allocation: [0; TIERS_COUNT],
        time_table: [0; 2],
        tier_remaining: [5; TIERS_COUNT],
    }
}

#[test]
fn pool_math_example() {
    let goal_max = 1_000_000;
    let price = 1_000_000_000;
    let tier_balance = [5000, 9000, 16000, 30000];
    let tier_users = [100, 50, 25, 10];
    let mut pool = pool_new(price, goal_max);
    pool.set_tier_allocations(tier_users, tier_balance).unwrap();
    assert_eq!(pool.tier_allocation[0], 3030);
    assert_eq!(pool.tier_allocation[1], 5454);
    assert_eq!(pool.tier_allocation[2], 9696);
    assert_eq!(pool.tier_allocation[3], 18181);
}

#[test]
fn pool_math_equal() {
    let goal_max = 1_000_000;
    let price = 1_000_000_000;
    let tier_balance = [10, 10, 10, 10];
    let tier_users = [10, 10, 10, 10];
    let mut pool = pool_new(price, goal_max);
    pool.set_tier_allocations(tier_users, tier_balance).unwrap();
    assert_eq!(pool.tier_allocation[0], 25000);
    assert_eq!(pool.tier_allocation[1], 25000);
    assert_eq!(pool.tier_allocation[2], 25000);
    assert_eq!(pool.tier_allocation[3], 25000);
    assert_eq!(pool.tier_remaining[0], 250000);
    assert_eq!(pool.tier_remaining[1], 250000);
    assert_eq!(pool.tier_remaining[2], 250000);
    assert_eq!(pool.tier_remaining[3], 250000);
}

#[test]
fn pool_one() {
    let goal_max = 1_000_000;
    let price = 1_000_000_000;
    let tier_balance = [1000, 2000, 3000, 4000];
    let tier_users = [0, 1, 0, 0];
    let mut pool = pool_new(price, goal_max);
    pool.set_tier_allocations(tier_users, tier_balance).unwrap();
    assert_eq!(pool.tier_allocation[0], 500000);
    assert_eq!(pool.tier_allocation[1], 1000000);
    assert_eq!(pool.tier_allocation[2], 1500000);
    assert_eq!(pool.tier_allocation[3], 2000000);
    assert_eq!(pool.tier_remaining[0], 0);
    assert_eq!(pool.tier_remaining[1], 1000000);
    assert_eq!(pool.tier_remaining[2], 0);
    assert_eq!(pool.tier_remaining[3], 0);
}

#[test]
fn pool_skew() {
    let goal_max = 1_000_000;
    let price = 1_000_000_000;
    let tier_balance = [10, 10, 10, 30];
    let tier_users = [10, 10, 10, 10];
    let mut pool = pool_new(price, goal_max);
    pool.set_tier_allocations(tier_users, tier_balance).unwrap();
    assert_eq!(pool.tier_allocation[0], 16666);
    assert_eq!(pool.tier_allocation[1], 16666);
    assert_eq!(pool.tier_allocation[2], 16666);
    assert_eq!(pool.tier_allocation[3], 3 * 16666 + 2);
    assert_eq!(pool.tier_remaining[0], 16666 * 10);
    assert_eq!(pool.tier_remaining[1], 16666 * 10);
    assert_eq!(pool.tier_remaining[2], 16666 * 10);
    assert_eq!(pool.tier_remaining[3], 500000);

    assert_eq!(
        pool.tier_remaining.iter().sum::<u64>(),
        goal_max * PRECISION / price - 20
    );
}

#[test]
fn pool_stage_math() {
    let goal_max = 1_000_000;
    let price = 1_000_000_000;
    let pool = Pool {
        time_table: [10, 20],
        ..pool_new(price, goal_max)
    };
    let mut now = pool.time_start;

    assert_eq!(pool.get_current_stage(now).unwrap(), Stage::InitialStage);

    now = 21;
    assert_eq!(pool.get_current_stage(now).unwrap(), Stage::TierAllocationStage);

    now = 131;
    assert_eq!(pool.get_current_stage(now).unwrap(), Stage::FinalStage);
}

#[test]
fn pool_invest_math() {
    let goal_max = 1_000_000;
    let price = 1_000_000_000;
    let pool = pool_new(price, goal_max);

    assert_eq!(
        pool.stage_investment(10, Stage::InitialStage, [3, 6, 9, 12], 7)
            .unwrap()
            .0,
        6
    );
    assert_eq!(
        pool.stage_investment(10, Stage::TierAllocationStage, [3, 6, 9, 12], 7)
            .unwrap()
            .0,
        5
    );
    assert_eq!(
        pool.stage_investment(10, Stage::FinalStage, [3, 6, 9, 12], 7)
            .unwrap()
            .0,
        10
    );
}

#[test]
fn stage_investment_reports_tier() {
    let pool = pool_new(1_000_000_000, 1_000_000);
    assert_eq!(
        pool.stage_investment(10, Stage::InitialStage, [3, 6, 9, 12], 7),
        Ok((6, Some(1)))
    );
    assert_eq!(
        pool.stage_investment(10, Stage::InitialStage, [3, 6, 9, 12], 12),
        Ok((10, Some(3)))
    );
    assert_eq!(
        pool.stage_investment(10, Stage::FinalStage, [3, 6, 9, 12], 1),
        Ok((10, None))
    );
}

#[test]
fn stage_investment_without_tier() {
    let pool = pool_new(1_000_000_000, 1_000_000);
    assert_eq!(
        pool.stage_investment(10, Stage::InitialStage, [3, 6, 9, 12], 2),
        Err(Error::AccountOnThisTierCannotParticipateOnCurrentStage)
    );
    assert_eq!(
        pool.stage_investment(10, Stage::TierAllocationStage, [3, 6, 9, 12], 0),
        Err(Error::AccountOnThisTierCannotParticipateOnCurrentStage)
    );
}

#[test]
fn allocations_without_users() {
    let mut pool = pool_new(1_000_000_000, 1_000_000);
    let before = pool;
    assert_eq!(
        pool.set_tier_allocations([0, 0, 0, 0], [5000, 9000, 16000, 30000]),
        Err(Error::DivisionByZero)
    );
    assert_eq!(pool.tier_remaining, before.tier_remaining);
    assert_eq!(pool.tier_allocation, before.tier_allocation);
}

#[test]
fn allocations_with_zero_price() {
    let mut pool = pool_new(0, 1_000_000);
    assert_eq!(
        pool.set_tier_allocations([1, 1, 1, 1], [1, 2, 3, 4]),
        Err(Error::DivisionByZero)
    );
}

#[test]
fn allocations_overflow() {
    let mut pool = pool_new(1, u64::MAX);
    let before = pool;
    assert_eq!(
        pool.set_tier_allocations([1, 0, 0, 0], [u64::MAX, 1, 1, 1]),
        Err(Error::Overflow)
    );
    assert_eq!(pool.tier_remaining, before.tier_remaining);
}

#[test]
fn allocations_stay_within_raise() {
    let goal_max = 1_000_000u64;
    let price = 1_000_000_000u64;
    let tier_users = [100u32, 50, 25, 10];
    let mut pool = pool_new(price, goal_max);
    pool.set_tier_allocations(tier_users, [5000, 9000, 16000, 30000])
        .unwrap();
    let sum: u64 = pool.tier_remaining.iter().sum();
    let raise = goal_max * PRECISION / price;
    let users: u64 = tier_users.iter().map(|u| *u as u64).sum();
    assert!(sum <= raise);
    assert!(raise - sum <= users);
    assert_eq!(sum, 3030 * 100 + 5454 * 50 + 9696 * 25 + 18181 * 10);
}

#[test]
fn current_stage_outside_window() {
    let pool = Pool {
        time_table: [10, 20],
        ..pool_new(1_000_000_000, 1_000_000)
    };
    assert_eq!(pool.get_current_stage(9), Err(Error::CantDepositAtCurrentTime));
    assert_eq!(pool.get_current_stage(501), Err(Error::CantDepositAtCurrentTime));
    assert_eq!(pool.get_current_stage(500), Ok(Stage::FinalStage));
}

#[test]
fn current_stage_boundaries() {
    let pool = Pool {
        time_table: [10, 20],
        ..pool_new(1_000_000_000, 1_000_000)
    };
    assert_eq!(pool.get_current_stage(19), Ok(Stage::InitialStage));
    assert_eq!(pool.get_current_stage(20), Ok(Stage::TierAllocationStage));
    assert_eq!(pool.get_current_stage(39), Ok(Stage::TierAllocationStage));
    assert_eq!(pool.get_current_stage(40), Ok(Stage::FinalStage));
}

#[test]
fn stages_never_go_back() {
    let pool = Pool {
        time_table: [10, 20],
        ..pool_new(1_000_000_000, 1_000_000)
    };
    let mut last = 0u8;
    for now in pool.time_start..=pool.time_finish {
        let stage = pool.get_current_stage(now).unwrap().to_u8();
        assert!(stage >= last);
        last = stage;
    }
    assert_eq!(last, 2);
}

#[test]
fn stage_bytes() {
    assert_eq!(Stage::InitialStage.to_be_bytes(), [0]);
    assert_eq!(Stage::TierAllocationStage.to_be_bytes(), [1]);
    assert_eq!(Stage::FinalStage.to_be_bytes(), [2]);
}
