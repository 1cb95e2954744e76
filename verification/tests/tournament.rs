use multiversed_dapp::lock::LOCK_ONE_UNIT;
use multiversed_dapp::math::ACC_PRECISION;
use multiversed_dapp::tournament::{MAX_TOURNAMENT_DURATION_SECONDS, MAX_TOURNAMENT_PARTICIPANTS};
use multiversed_dapp::{
    create_tournament_pool, distribute_tournament_prizes, distribute_tournament_revenue,
    initialize_prize_pool, initialize_revenue_pool, register_for_tournament, stake, PrizePool,
    RegistrationRecord, RevenuePool, RewardPool, StakingPool, TokenType, TournamentError,
    TournamentPool, UserStakingAccount,
};

const CREATOR: u64 = 11;

fn blank_tournament() -> TournamentPool {
    TournamentPool {
        admin: 0,
        mint: 0,
        tournament_id: Vec::new(),
        entry_fee: 0,
        total_funds: 0,
        participant_count: 0,
        max_participants: 0,
        end_time: 0,
        is_active: false,
        token_type: TokenType::SPL,
    }
}

fn blank_prize_pool() -> PrizePool {
    PrizePool {
        admin: 0,
        tournament_pool: 0,
        mint: 0,
        tournament_id: Vec::new(),
        total_funds: 0,
        distributed: false,
        token_type: TokenType::SPL,
    }
}

fn blank_registration() -> RegistrationRecord {
    RegistrationRecord {
        user: 0,
        tournament_pool: 0,
        is_initialized: false,
        registration_time: 0,
    }
}

fn made_tournament(entry_fee: u64, max_participants: u16) -> TournamentPool {
    let mut pool = blank_tournament();
    create_tournament_pool(
        &mut pool,
        CREATOR,
        22,
        33,
        &b"cup".to_vec(),
        entry_fee,
        max_participants,
        1_000,
        100,
        TokenType::SPL,
    )
    .unwrap();
    pool
}

#[test]
fn create_pads_the_identifier() {
    let pool = made_tournament(50, 10);
    assert_eq!(pool.admin, CREATOR);
    assert_eq!(pool.entry_fee, 50);
    assert_eq!(pool.total_funds, 0);
    assert_eq!(pool.participant_count, 0);
    assert_eq!(pool.max_participants, 10);
    assert_eq!(pool.end_time, 1_000);
    assert!(pool.is_active);
    assert_eq!(pool.tournament_id.len(), 32);
    assert_eq!(&pool.tournament_id[..3], b"cup");
    assert!(pool.tournament_id[3..].iter().all(|&b| b == 0));
}

#[test]
fn create_validates_inputs() {
    let mut pool = blank_tournament();
    let id = b"cup".to_vec();
    assert_eq!(
        create_tournament_pool(&mut pool, CREATOR, 22, 33, &id, 0, 10, 1_000, 100, TokenType::SPL),
        Err(TournamentError::InvalidEntryFee)
    );
    assert_eq!(
        create_tournament_pool(&mut pool, CREATOR, 22, 33, &id, 5, 0, 1_000, 100, TokenType::SPL),
        Err(TournamentError::InvalidMaxParticipants)
    );
    assert_eq!(
        create_tournament_pool(
            &mut pool,
            CREATOR,
            22,
            33,
            &id,
            5,
            MAX_TOURNAMENT_PARTICIPANTS + 1,
            1_000,
            100,
            TokenType::SPL
        ),
        Err(TournamentError::InvalidMaxParticipants)
    );
    // must end after it starts, and within the duration cap
    assert_eq!(
        create_tournament_pool(&mut pool, CREATOR, 22, 33, &id, 5, 10, 100, 100, TokenType::SPL),
        Err(TournamentError::InvalidEndTime)
    );
    assert_eq!(
        create_tournament_pool(
            &mut pool,
            CREATOR,
            22,
            33,
            &id,
            5,
            10,
            100 + MAX_TOURNAMENT_DURATION_SECONDS,
            100,
            TokenType::SPL
        ),
        Err(TournamentError::InvalidEndTime)
    );
    let long_id = vec![7u8; 33];
    assert_eq!(
        create_tournament_pool(
            &mut pool,
            CREATOR,
            22,
            33,
            &long_id,
            5,
            10,
            1_000,
            100,
            TokenType::SPL
        ),
        Err(TournamentError::InvalidTournamentId)
    );
    assert_eq!(pool, blank_tournament());
}

#[test]
fn register_collects_the_fee() {
    let mut pool = made_tournament(50, 2);
    let mut reg = blank_registration();
    assert!(register_for_tournament(&mut pool, &mut reg, 5, 33, 500).is_ok());
    assert_eq!(pool.total_funds, 50);
    assert_eq!(pool.participant_count, 1);
    assert!(reg.is_initialized);
    assert_eq!(reg.user, 5);
    assert_eq!(reg.tournament_pool, 33);
    assert_eq!(reg.registration_time, 500);
}

#[test]
fn register_rejections() {
    let mut pool = made_tournament(50, 1);
    let mut reg = blank_registration();

    // the same record cannot register twice
    assert!(register_for_tournament(&mut pool, &mut reg, 5, 33, 500).is_ok());
    assert_eq!(
        register_for_tournament(&mut pool, &mut reg, 5, 33, 501),
        Err(TournamentError::AlreadyRegistered)
    );

    // full: capacity 1 is used up
    let mut other = blank_registration();
    assert_eq!(
        register_for_tournament(&mut pool, &mut other, 6, 33, 501),
        Err(TournamentError::TournamentFull)
    );

    // ended
    let mut pool2 = made_tournament(50, 5);
    assert_eq!(
        register_for_tournament(&mut pool2, &mut other, 6, 33, 1_000),
        Err(TournamentError::TournamentEnded)
    );

    // not active
    let mut pool3 = made_tournament(50, 5);
    pool3.is_active = false;
    assert_eq!(
        register_for_tournament(&mut pool3, &mut other, 6, 33, 500),
        Err(TournamentError::TournamentNotActive)
    );

    // the pot must not overflow
    let mut pool4 = made_tournament(u64::MAX, 5);
    let mut reg4 = blank_registration();
    assert!(register_for_tournament(&mut pool4, &mut reg4, 5, 33, 500).is_ok());
    let mut reg5 = blank_registration();
    let before = pool4.clone();
    assert_eq!(
        register_for_tournament(&mut pool4, &mut reg5, 6, 33, 501),
        Err(TournamentError::MathOverflow)
    );
    assert_eq!(pool4, before);
    assert!(!reg5.is_initialized);
}

#[test]
fn prize_pool_follows_its_tournament() {
    let tournament = made_tournament(50, 10);
    let mut prize = blank_prize_pool();
    assert_eq!(
        initialize_prize_pool(&mut prize, &tournament, 99, 22, 44, 33),
        Err(TournamentError::Unauthorized)
    );
    assert!(initialize_prize_pool(&mut prize, &tournament, CREATOR, 22, 44, 33).is_ok());
    assert_eq!(prize.admin, CREATOR);
    assert_eq!(prize.tournament_pool, 33);
    assert_eq!(prize.tournament_id, tournament.tournament_id);
    assert_eq!(prize.total_funds, 0);
    assert!(!prize.distributed);
    assert_eq!(prize.token_type, tournament.token_type);
}

struct World {
    tournament: TournamentPool,
    prize: PrizePool,
    revenue: RevenuePool,
    reward: RewardPool,
    staking: StakingPool,
}

fn settled_world(entry_fee: u64, participants: u16, staked: u64) -> World {
    let mut tournament = made_tournament(entry_fee, participants.max(1));
    for i in 0..participants {
        let mut reg = blank_registration();
        register_for_tournament(&mut tournament, &mut reg, 1000 + i as u64, 33, 500).unwrap();
    }
    let mut prize = blank_prize_pool();
    initialize_prize_pool(&mut prize, &tournament, CREATOR, 22, 44, 33).unwrap();
    let mut revenue = RevenuePool {
        admin: CREATOR,
        mint: 22,
        total_funds: 0,
        last_distribution: 0,
        token_type: TokenType::SPL,
    };
    initialize_revenue_pool(&mut revenue, CREATOR, 22, 55, 100, TokenType::SPL).unwrap();
    let mut staking = StakingPool {
        admin: CREATOR,
        mint: 22,
        total_staked: 0,
        total_weight: 0,
        acc_reward_per_weight: 0,
        epoch_index: 0,
        token_type: TokenType::SPL,
    };
    if staked > 0 {
        let mut pos = UserStakingAccount {
            owner: 0,
            staked_amount: 0,
            stake_timestamp: 0,
            lock_duration: 0,
            weight: 0,
            reward_debt: 0,
            pending_rewards: 0,
        };
        stake(&mut staking, &mut pos, 7, staked, LOCK_ONE_UNIT, 10).unwrap();
    }
    World {
        tournament,
        prize,
        revenue,
        reward: RewardPool {
            admin: CREATOR,
            mint: 22,
            total_funds: 0,
            last_distribution: 0,
            token_type: TokenType::SPL,
        },
        staking,
    }
}

#[test]
fn revenue_split_default_percentages() {
    // 2 entries of 50 = pot of 100: 40/50/5/5 -> 40, 50, 5, 5
    let mut w = settled_world(50, 2, 1000);
    let d = distribute_tournament_revenue(
        &mut w.tournament,
        &mut w.prize,
        &mut w.revenue,
        &mut w.reward,
        &mut w.staking,
        CREATOR,
        40,
        50,
        5,
        5,
        2_000,
    )
    .unwrap();
    assert_eq!(d.prize_amount, 40);
    assert_eq!(d.revenue_amount, 50);
    assert_eq!(d.staking_amount, 5);
    assert_eq!(d.burn_amount, 5);
    assert_eq!(w.prize.total_funds, 40);
    assert_eq!(w.revenue.total_funds, 50);
    assert_eq!(w.revenue.last_distribution, 2_000);
    assert_eq!(w.reward.total_funds, 5);
    assert!(!w.tournament.is_active);
    assert_eq!(w.tournament.total_funds, 0);
    // 5 over weight 1000: delta = 5 * 1e12 / 1000
    assert_eq!(w.staking.acc_reward_per_weight, 5 * ACC_PRECISION / 1000);
    assert_eq!(w.staking.epoch_index, 1);
}

#[test]
fn revenue_split_rounding_dust_bounded() {
    // pot of 97: floors 38 + 48 + 4 + 4 = 94, dust of exactly 3
    let mut w = settled_world(97, 1, 1000);
    let d = distribute_tournament_revenue(
        &mut w.tournament,
        &mut w.prize,
        &mut w.revenue,
        &mut w.reward,
        &mut w.staking,
        CREATOR,
        40,
        50,
        5,
        5,
        2_000,
    )
    .unwrap();
    assert_eq!(d.prize_amount, 38);
    assert_eq!(d.revenue_amount, 48);
    assert_eq!(d.staking_amount, 4);
    assert_eq!(d.burn_amount, 4);
    let paid = d.prize_amount + d.revenue_amount + d.staking_amount + d.burn_amount;
    assert!(paid <= 97);
    assert!(97 - paid <= 3);
}

#[test]
fn revenue_with_no_stakers_strands_the_staking_bucket() {
    let mut w = settled_world(100, 1, 0);
    let d = distribute_tournament_revenue(
        &mut w.tournament,
        &mut w.prize,
        &mut w.revenue,
        &mut w.reward,
        &mut w.staking,
        CREATOR,
        40,
        50,
        5,
        5,
        2_000,
    )
    .unwrap();
    // the funds still move into the reward ledger, but with no weight the
    // accumulator stays put: that revenue is never owed to anyone
    assert_eq!(d.staking_amount, 5);
    assert_eq!(w.reward.total_funds, 5);
    assert_eq!(w.staking.acc_reward_per_weight, 0);
    assert_eq!(w.staking.epoch_index, 1);
}

#[test]
fn revenue_rejections() {
    let mut w = settled_world(50, 2, 1000);
    let err = |w: &mut World, creator, p1, p2, p3, p4, now| {
        distribute_tournament_revenue(
            &mut w.tournament,
            &mut w.prize,
            &mut w.revenue,
            &mut w.reward,
            &mut w.staking,
            creator,
            p1,
            p2,
            p3,
            p4,
            now,
        )
        .unwrap_err()
    };
    assert_eq!(err(&mut w, 99, 40, 50, 5, 5, 2_000), TournamentError::Unauthorized);
    assert_eq!(
        err(&mut w, CREATOR, 40, 50, 5, 6, 2_000),
        TournamentError::InvalidPercentages
    );
    // the percentage check adds within eight bits; a sum past 255 overflows
    assert_eq!(
        err(&mut w, CREATOR, 200, 200, 5, 5, 2_000),
        TournamentError::MathOverflow
    );
    // too early: the tournament has not ended yet
    assert_eq!(
        err(&mut w, CREATOR, 40, 50, 5, 5, 999),
        TournamentError::TournamentNotActive
    );
    // distributing twice: the first pass deactivates the pool
    let ok = distribute_tournament_revenue(
        &mut w.tournament,
        &mut w.prize,
        &mut w.revenue,
        &mut w.reward,
        &mut w.staking,
        CREATOR,
        40,
        50,
        5,
        5,
        2_000,
    );
    assert!(ok.is_ok());
    assert_eq!(
        err(&mut w, CREATOR, 40, 50, 5, 5, 2_000),
        TournamentError::TournamentNotActive
    );
    // an ended tournament with an empty pot has nothing to distribute
    let mut empty = settled_world(50, 0, 0);
    assert_eq!(
        err(&mut empty, CREATOR, 40, 50, 5, 5, 2_000),
        TournamentError::InsufficientFunds
    );
}

#[test]
fn prizes_pay_top_three() {
    let mut w = settled_world(50, 2, 0);
    distribute_tournament_revenue(
        &mut w.tournament,
        &mut w.prize,
        &mut w.revenue,
        &mut w.reward,
        &mut w.staking,
        CREATOR,
        40,
        50,
        5,
        5,
        2_000,
    )
    .unwrap();
    assert_eq!(w.prize.total_funds, 40);
    let d = distribute_tournament_prizes(&mut w.prize, CREATOR, &b"cup".to_vec()).unwrap();
    assert_eq!(d.first_place_amount, 20);
    assert_eq!(d.second_place_amount, 12);
    assert_eq!(d.third_place_amount, 8);
    assert!(w.prize.distributed);
    assert_eq!(w.prize.total_funds, 0);
}

#[test]
fn prizes_rejections() {
    let mut w = settled_world(50, 2, 0);
    distribute_tournament_revenue(
        &mut w.tournament,
        &mut w.prize,
        &mut w.revenue,
        &mut w.reward,
        &mut w.staking,
        CREATOR,
        40,
        50,
        5,
        5,
        2_000,
    )
    .unwrap();
    assert_eq!(
        distribute_tournament_prizes(&mut w.prize, 99, &b"cup".to_vec()),
        Err(TournamentError::Unauthorized)
    );
    assert_eq!(
        distribute_tournament_prizes(&mut w.prize, CREATOR, &b"other".to_vec()),
        Err(TournamentError::Unauthorized)
    );
    assert_eq!(
        distribute_tournament_prizes(&mut w.prize, CREATOR, &vec![1u8; 33]),
        Err(TournamentError::InvalidTournamentId)
    );
    let d = distribute_tournament_prizes(&mut w.prize, CREATOR, &b"cup".to_vec());
    assert!(d.is_ok());
    assert_eq!(
        distribute_tournament_prizes(&mut w.prize, CREATOR, &b"cup".to_vec()),
        Err(TournamentError::AlreadyDistributed)
    );
    // an empty prize pool refuses distribution
    let tournament2 = made_tournament(50, 2);
    let mut prize2 = blank_prize_pool();
    initialize_prize_pool(&mut prize2, &tournament2, CREATOR, 22, 44, 33).unwrap();
    assert_eq!(
        distribute_tournament_prizes(&mut prize2, CREATOR, &b"cup".to_vec()),
        Err(TournamentError::InsufficientFunds)
    );
}

#[test]
fn revenue_pool_initialize_once() {
    let mut revenue = RevenuePool {
        admin: 0,
        mint: 0,
        total_funds: 0,
        last_distribution: 0,
        token_type: TokenType::SPL,
    };
    assert!(initialize_revenue_pool(&mut revenue, CREATOR, 22, 55, 100, TokenType::SPL).is_ok());
    assert_eq!(revenue.admin, CREATOR);
    assert_eq!(revenue.last_distribution, 100);
    revenue.total_funds = 1;
    assert_eq!(
        initialize_revenue_pool(&mut revenue, CREATOR, 22, 55, 100, TokenType::SPL),
        Err(multiversed_dapp::RevenueError::AlreadyInitialized)
    );
}

#[test]
fn no_front_running_around_a_distribution() {
    // two equal stakes under the same lock, one before and one after the
    // distribution: the early one earns the whole event, the late one nothing
    let mut staking = StakingPool {
        admin: CREATOR,
        mint: 22,
        total_staked: 0,
        total_weight: 0,
        acc_reward_per_weight: 0,
        epoch_index: 0,
        token_type: TokenType::SPL,
    };
    let blank_pos = UserStakingAccount {
        owner: 0,
        staked_amount: 0,
        stake_timestamp: 0,
        lock_duration: 0,
        weight: 0,
        reward_debt: 0,
        pending_rewards: 0,
    };
    let mut early = blank_pos;
    let mut late = blank_pos;
    stake(&mut staking, &mut early, 1, 1000, LOCK_ONE_UNIT, 10).unwrap();

    let mut w = settled_world(200, 1, 0);
    w.staking = staking;
    distribute_tournament_revenue(
        &mut w.tournament,
        &mut w.prize,
        &mut w.revenue,
        &mut w.reward,
        &mut w.staking,
        CREATOR,
        40,
        50,
        5,
        5,
        2_000,
    )
    .unwrap();
    // staking bucket 10 over weight 1000
    assert_eq!(w.reward.total_funds, 10);

    stake(&mut w.staking, &mut late, 2, 1000, LOCK_ONE_UNIT, 2_001).unwrap();

    let mut reward = w.reward;
    let early_claim =
        multiversed_dapp::claim_rewards(&w.staking, &mut reward, &mut early, 1).unwrap();
    assert_eq!(early_claim, 10);
    assert_eq!(
        multiversed_dapp::claim_rewards(&w.staking, &mut reward, &mut late, 2),
        Err(multiversed_dapp::StakingError::InsufficientStakedBalance)
    );
}
