use sol_starter::ido::error::Error;
use sol_starter::ido::instruction::InitializePool;
use sol_starter::ido::state::{
    KycRequirement, MarketUserKyc, MintWhitelist, Payout, Pool, Stage,
};
use sol_starter::program_error::ProgramError;
use sol_starter::{Pubkey, TIERS_COUNT};

fn key(n: u8) -> Pubkey {
    Pubkey([n; 32])
}

fn sale(price: u64) -> Pool {
    Pool {
        version: 1,
        market: key(1),
        account_collection: key(2),
        account_distribution: key(3),
        mint_pool: key(4),
        mint_whitelist: MintWhitelist::NoKey(Pubkey::default()),
        price,
        goal_max_collected: 1_000,
        goal_min_collected: 100,
        amount_investment_min: 10,
        amount_investment_max: 500,
        time_start: 100,
        time_finish: 200,
        amount_collected: 0,
        amount_to_distribute: 0,
        owner: key(5),
        authority: key(6),
        authority_bump_seed: 1,
        kyc_requirement: KycRequirement::NotRequired,
        tier_allocation: [0; TIERS_COUNT],
        time_table: [20, 30],
        tier_remaining: [50, 100, 150, 200],
    }
}

fn custom(e: Error) -> ProgramError {
    ProgramError::Custom(e.code())
}

#[test]
fn conversion_at_price() {
    let pool = sale(2_000_000_000);
    assert_eq!(pool.collected_to_distributed(10), Ok(5));
    assert_eq!(pool.collected_to_distributed(11), Ok(5));
    let pool = sale(500_000_000);
    assert_eq!(pool.collected_to_distributed(7), Ok(14));
    let pool = sale(3);
    assert_eq!(pool.collected_to_distributed(1), Ok(333_333_333));
}

#[test]
fn conversion_errors() {
    assert_eq!(sale(0).collected_to_distributed(1), Err(Error::DivisionByZero));
    assert_eq!(sale(1).collected_to_distributed(u64::MAX), Err(Error::Overflow));
    assert_eq!(sale(1).collected_to_distributed(0), Ok(0));
}

#[test]
fn conversion_drift_per_call() {
    let pool = sale(3_000_000_000);
    let parts = [1u64, 1, 1, 2, 5];
    let one_by_one: u64 = parts
        .iter()
        .map(|a| pool.collected_to_distributed(*a).unwrap())
        .sum();
    let at_once = pool.collected_to_distributed(parts.iter().sum()).unwrap();
    assert_eq!(one_by_one, 0 + 0 + 0 + 0 + 1);
    assert_eq!(at_once, 3);
    assert!(one_by_one <= at_once);
    assert!(at_once - one_by_one <= parts.len() as u64);
}

#[test]
fn conversion_is_monotonic() {
    let pool = sale(700_000_000);
    let mut last = 0;
    for a in 0..1_000u64 {
        let d = pool.collected_to_distributed(a).unwrap();
        assert!(d >= last);
        last = d;
    }
}

#[test]
fn distributed_update_takes_from_tier() {
    let mut pool = sale(1_000_000_000);
    pool.update_distributed_from_collected(30, Some(1), Stage::TierAllocationStage)
        .unwrap();
    assert_eq!(pool.tier_remaining, [50, 70, 150, 200]);
    assert_eq!(pool.amount_to_distribute, 30);
    pool.update_distributed_from_collected(30, Some(1), Stage::FinalStage)
        .unwrap();
    assert_eq!(pool.tier_remaining, [50, 70, 150, 200]);
    assert_eq!(pool.amount_to_distribute, 60);
}

#[test]
fn distributed_update_underflow() {
    let mut pool = sale(1_000_000_000);
    assert_eq!(
        pool.update_distributed_from_collected(51, Some(0), Stage::InitialStage),
        Err(Error::Underflow)
    );
    assert_eq!(pool.tier_remaining, [50, 100, 150, 200]);
    assert_eq!(pool.amount_to_distribute, 0);
}

#[test]
fn distributed_update_overflow() {
    let mut pool = Pool {
        amount_to_distribute: u64::MAX,
        ..sale(1_000_000_000)
    };
    assert_eq!(
        pool.update_distributed_from_collected(1, None, Stage::FinalStage),
        Err(Error::Overflow)
    );
}

#[test]
fn participation_stage_checks() {
    let pool = sale(1_000_000_000);
    assert_eq!(
        pool.participation_stage(100),
        Err(custom(Error::CanParticipateOnlyInStartedPool))
    );
    assert_eq!(pool.participation_stage(101), Ok(Stage::InitialStage));
    assert_eq!(pool.participation_stage(125), Ok(Stage::TierAllocationStage));
    assert_eq!(pool.participation_stage(150), Ok(Stage::FinalStage));
    assert_eq!(
        pool.participation_stage(201),
        Err(custom(Error::CantDepositAtCurrentTime))
    );
    let fresh = Pool { version: 0, ..pool };
    assert_eq!(fresh.participation_stage(150), Err(ProgramError::UninitializedAccount));
}

#[test]
fn investment_in_initial_stage() {
    let mut pool = sale(1_000_000_000);
    let allowed = pool
        .accept_investment(Stage::InitialStage, 400, [30, 60, 90, 120], 70)
        .unwrap();
    assert_eq!(allowed, 60);
    assert_eq!(pool.amount_collected, 60);
    assert_eq!(pool.amount_to_distribute, 60);
    assert_eq!(pool.tier_remaining, [50, 40, 150, 200]);
}

#[test]
fn investment_in_tier_allocation_stage() {
    let mut pool = sale(1_000_000_000);
    let allowed = pool
        .accept_investment(Stage::TierAllocationStage, 400, [30, 60, 90, 120], 200)
        .unwrap();
    assert_eq!(allowed, 200);
    assert_eq!(pool.tier_remaining, [50, 100, 150, 0]);
}

#[test]
fn investment_in_final_stage() {
    let mut pool = sale(2_000_000_000);
    let allowed = pool
        .accept_investment(Stage::FinalStage, 401, [0; TIERS_COUNT], 0)
        .unwrap();
    assert_eq!(allowed, 401);
    assert_eq!(pool.amount_collected, 401);
    assert_eq!(pool.amount_to_distribute, 200);
    assert_eq!(pool.tier_remaining, [50, 100, 150, 200]);
}

#[test]
fn investment_errors() {
    let mut pool = sale(1_000_000_000);
    assert_eq!(
        pool.accept_investment(Stage::FinalStage, 9, [0; TIERS_COUNT], 0),
        Err(Error::IncorrectDepositAmount)
    );
    assert_eq!(
        pool.accept_investment(Stage::FinalStage, 501, [0; TIERS_COUNT], 0),
        Err(Error::IncorrectDepositAmount)
    );
    let mut full = Pool {
        amount_collected: 900,
        ..pool
    };
    assert_eq!(
        full.accept_investment(Stage::FinalStage, 101, [0; TIERS_COUNT], 0),
        Err(Error::PoolAlreadyFull)
    );
    assert_eq!(full.accept_investment(Stage::FinalStage, 100, [0; TIERS_COUNT], 0), Ok(100));
    assert_eq!(
        pool.accept_investment(Stage::InitialStage, 100, [30, 60, 90, 120], 10),
        Err(Error::AccountOnThisTierCannotParticipateOnCurrentStage)
    );
    assert_eq!(pool.amount_collected, 0);
}

#[test]
fn claim_after_success() {
    let pool = Pool {
        amount_collected: 100,
        ..sale(2_000_000_000)
    };
    assert_eq!(pool.claim_payout(200, 50, key(3)), Ok(Payout::Distribution(25)));
    assert_eq!(
        pool.claim_payout(200, 50, key(2)),
        Err(custom(Error::WrongPoolAccountToSendTokensFrom))
    );
    assert_eq!(
        pool.claim_payout(199, 50, key(3)),
        Err(custom(Error::CantClaimFromActivePool))
    );
}

#[test]
fn claim_after_failure() {
    let pool = Pool {
        amount_collected: 99,
        ..sale(2_000_000_000)
    };
    assert_eq!(pool.claim_payout(300, 50, key(2)), Ok(Payout::Refund(50)));
    assert_eq!(
        pool.claim_payout(300, 50, key(3)),
        Err(custom(Error::WrongPoolAccountToSendTokensFrom))
    );
}

#[test]
fn withdraw_amounts() {
    let won = Pool {
        amount_collected: 400,
        amount_to_distribute: 300,
        ..sale(1_000_000_000)
    };
    assert_eq!(won.withdraw_amount(200, key(2), 400), Ok(400));
    assert_eq!(won.withdraw_amount(200, key(3), 1_000), Ok(700));
    assert_eq!(won.withdraw_amount(200, key(3), 299), Err(custom(Error::Underflow)));
    assert_eq!(
        won.withdraw_amount(200, key(9), 1_000),
        Err(custom(Error::WrongPoolAccountToSendTokensFrom))
    );
    assert_eq!(
        won.withdraw_amount(150, key(2), 400),
        Err(custom(Error::CantWithdrawFromActivePool))
    );
    let lost = Pool {
        amount_collected: 50,
        ..won
    };
    assert_eq!(lost.withdraw_amount(200, key(2), 70), Ok(20));
    assert_eq!(lost.withdraw_amount(200, key(3), 1_000), Ok(1_000));
}

#[test]
fn start_sets_allocations() {
    let mut pool = Pool {
        goal_max_collected: 1_000_000,
        ..sale(1_000_000_000)
    };
    assert_eq!(
        pool.start(99, [10, 10, 10, 10], [10, 10, 10, 10]),
        Err(custom(Error::InvalidPoolTimeFrame))
    );
    assert_eq!(pool.start(100, [10, 10, 10, 10], [10, 10, 10, 10]), Ok(()));
    assert_eq!(pool.tier_allocation, [25000; 4]);
    assert_eq!(pool.tier_remaining, [250000; 4]);
    assert_eq!(
        pool.start(150, [0; 4], [10, 10, 10, 10]),
        Err(custom(Error::DivisionByZero))
    );
}

fn init_input() -> InitializePool {
    InitializePool {
        pool_owner: key(5),
        price: 1_000_000_000,
        goal_max: 1_000,
        goal_min: 100,
        amount_min: 10,
        amount_max: 500,
        time_start: 100,
        time_finish: 200,
        kyc_requirement: KycRequirement::AnyRequired,
        time_table: [20, 30],
    }
}

#[test]
fn validate_pool_parameters() {
    assert_eq!(init_input().validate(50), Ok(()));
    assert_eq!(
        InitializePool { goal_min: 0, ..init_input() }.validate(50),
        Err(Error::InvalidGoalNumbers)
    );
    assert_eq!(
        InitializePool { goal_min: 2_000, ..init_input() }.validate(50),
        Err(Error::InvalidGoalNumbers)
    );
    assert_eq!(
        InitializePool { amount_min: 600, ..init_input() }.validate(50),
        Err(Error::InvalidGoalNumbers)
    );
    assert_eq!(init_input().validate(101), Err(Error::InvalidPoolTimeFrame));
    assert_eq!(
        InitializePool { time_table: [60, 41], ..init_input() }.validate(50),
        Err(Error::InvalidTimeTable)
    );
    assert_eq!(
        InitializePool { time_table: [60, 40], ..init_input() }.validate(50),
        Ok(())
    );
}

#[test]
fn kyc_admission() {
    let kyc = MarketUserKyc {
        version: 1,
        market: key(1),
        user_wallet: key(7),
        expiration: 500,
    };
    assert!(kyc.admits(key(1), key(7), 500));
    assert!(!kyc.admits(key(1), key(7), 501));
    assert!(!kyc.admits(key(2), key(7), 100));
    assert!(!kyc.admits(key(1), key(8), 100));
}

#[test]
fn error_codes() {
    assert_eq!(Error::WrongMarketOwner.code(), 0);
    assert_eq!(Error::Overflow.code(), 21);
    assert_eq!(Error::CanParticipateOnlyInStartedPool.code(), 35);
    assert_eq!(Error::Overflow.message(), "Overflow");
    assert_eq!(
        Error::DivisionByZero.to_program_error(),
        ProgramError::Custom(22)
    );
}

#[test]
fn initialize_pool_record() {
    let blank = Pool {
        version: 0,
        price: 0,
        goal_max_collected: 0,
        goal_min_collected: 0,
        time_table: [0, 0],
        ..sale(1)
    };
    let mut pool = blank;
    let r = pool.initialize(
        &init_input(),
        50,
        key(11),
        key(12),
        key(13),
        key(14),
        MintWhitelist::Key(key(15)),
        key(16),
        254,
    );
    assert_eq!(r, Ok(()));
    assert_eq!(pool.version, 1);
    assert_eq!(pool.market, key(11));
    assert_eq!(pool.account_distribution, key(13));
    assert_eq!(pool.price, 1_000_000_000);
    assert_eq!(pool.goal_max_collected, 1_000);
    assert_eq!(pool.goal_min_collected, 100);
    assert_eq!(pool.time_table, [20, 30]);
    assert_eq!(pool.owner, key(5));
    assert_eq!(pool.authority_bump_seed, 254);
    assert_eq!(pool.kyc_requirement, KycRequirement::AnyRequired);
    let again = pool.initialize(
        &init_input(),
        50,
        key(11),
        key(12),
        key(13),
        key(14),
        MintWhitelist::Key(key(15)),
        key(16),
        254,
    );
    assert_eq!(again, Err(ProgramError::AccountAlreadyInitialized));
    let mut other = blank;
    assert_eq!(
        other.initialize(
            &init_input(),
            150,
            key(11),
            key(12),
            key(13),
            key(14),
            MintWhitelist::NoKey(Pubkey::default()),
            key(16),
            1,
        ),
        Err(custom(Error::InvalidPoolTimeFrame))
    );
    assert_eq!(other.version, 0);
}

#[test]
fn whitelist_rules() {
    let public = sale(1);
    assert_eq!(public.whitelist_burn(None), Ok(false));
    assert_eq!(public.check_whitelist_mint(key(5), key(15)), Err(Error::WhitelistMintNotSet));
    let listed = Pool {
        mint_whitelist: MintWhitelist::Key(key(15)),
        ..sale(1)
    };
    assert_eq!(listed.whitelist_burn(Some(key(15))), Ok(true));
    assert_eq!(listed.whitelist_burn(Some(key(16))), Err(Error::WhitelistMintInvalid));
    assert_eq!(listed.whitelist_burn(None), Err(Error::WhitelistMintMissing));
    assert_eq!(listed.check_whitelist_mint(key(5), key(15)), Ok(()));
    assert_eq!(listed.check_whitelist_mint(key(6), key(15)), Err(Error::WrongMarketOwner));
    assert_eq!(listed.check_whitelist_mint(key(5), key(16)), Err(Error::WrongTokenMint));
}

#[test]
fn kyc_record_creation() {
    let mut kyc = MarketUserKyc {
        version: 0,
        market: Pubkey::default(),
        user_wallet: Pubkey::default(),
        expiration: 0,
    };
    let input = sol_starter::ido::instruction::CreateMarketUserKyc { expiration: 300 };
    assert_eq!(
        kyc.initialize(key(1), key(7), 301, &input),
        Err(custom(Error::InputTimeMustBeInFuture))
    );
    assert_eq!(kyc.initialize(key(1), key(7), 300, &input), Ok(()));
    assert!(kyc.admits(key(1), key(7), 300));
    assert_eq!(
        kyc.initialize(key(1), key(7), 300, &input),
        Err(ProgramError::AccountAlreadyInitialized)
    );
}

#[test]
fn market_creation() {
    let mut market = sol_starter::ido::state::Market {
        version: 0,
        owner: Pubkey::default(),
        stake_pool: Pubkey::default(),
    };
    let input = sol_starter::ido::instruction::InitializeMarket { stake_pool: key(3) };
    assert_eq!(market.initialize(key(2), &input), Ok(()));
    assert_eq!(market.owner, key(2));
    assert_eq!(market.stake_pool, key(3));
    assert_eq!(market.initialized(), Ok(()));
    assert_eq!(
        market.initialize(key(2), &input),
        Err(ProgramError::AccountAlreadyInitialized)
    );
}
