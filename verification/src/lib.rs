//! A multi-pool token-economics ledger: staked balances with lock-duration
//! weight multipliers, a MasterChef-style shared reward accumulator, and a
//! percentage split of tournament entry fees into prize / revenue / staking /
//! burn buckets.
//!
//! The library holds the accounting core only. Moving actual funds (ledger
//! transfers into and out of escrow) is a collaborator's job: every operation
//! here takes plain values, decides, and reports what the host must transfer.

pub mod errors;
pub mod laws;
pub mod lock;
pub mod math;
pub mod revenue;
pub mod rewards;
pub mod staking;
pub mod token_type;
pub mod tournament;

pub use errors::{RevenueError, RewardError, StakingError, TournamentError};
pub use lock::{lock_multiplier_bps, validate_lock_duration};
pub use revenue::{distribute_tournament_revenue, RevenueDistribution};
pub use rewards::{initialize_revenue_pool, initialize_reward_pool, RevenuePool, RewardPool};
pub use staking::{
    accrue_rewards, claim_rewards, initialize_accounts, stake, unstake, StakingPool,
    UserStakingAccount,
};
pub use token_type::TokenType;
pub use tournament::{
    create_tournament_pool, distribute_tournament_prizes, initialize_prize_pool,
    register_for_tournament, PrizeDistribution, PrizePool, RegistrationRecord, TournamentPool,
};
