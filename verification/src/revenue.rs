//! The revenue distributor: splits a tournament's collected entry fees into
//! prize, revenue-share, staking and burn buckets by percentage, and feeds
//! the staking bucket into the reward accumulator.
//!
//! Each bucket is `floor(total * pct / 100)`, so the four amounts may fall
//! short of the total by at most one unit of rounding per bucket; the
//! residual dust deliberately stays behind rather than being carried
//! forward.
//! The accumulator update is the only writer of `acc_reward_per_weight`,
//! and it is identical for both token kinds: asset branching is confined to
//! the host's transfer boundary.

use vstd::prelude::*;
use vstd::arithmetic::div_mod::{lemma_fundamental_div_mod, lemma_mod_bound};
use crate::errors::TournamentError;
use crate::math::{
    accrue_delta, accrue_delta_spec, pct_amount, pct_amount_spec, sat_add_u128,
};
use crate::rewards::{RevenuePool, RewardPool};
use crate::staking::StakingPool;
use crate::tournament::{PrizePool, TournamentPool};

verus! {

/// Default split of tournament revenue: prize share, in percent.
pub const DEFAULT_PRIZE_PERCENTAGE: u8 = 40;

/// Default split of tournament revenue: platform revenue share, in percent.
pub const DEFAULT_REVENUE_PERCENTAGE: u8 = 50;

/// Default split of tournament revenue: staking-reward share, in percent.
pub const DEFAULT_STAKING_PERCENTAGE: u8 = 5;

/// Default split of tournament revenue: burned share, in percent.
pub const DEFAULT_BURN_PERCENTAGE: u8 = 5;

/// The four bucket amounts of one revenue distribution; the host transfers
/// the first three into their pools' custody and burns the last.
#[derive(Clone, Copy, Debug, PartialEq, Eq, Structural)]
pub struct RevenueDistribution {
    pub prize_amount: u64,
    pub revenue_amount: u64,
    pub staking_amount: u64,
    pub burn_amount: u64,
}

/// The three partial sums of the percentage check stay within eight bits,
/// in the order they are added.
pub open spec fn percentages_fit(
    prize_percentage: u8,
    revenue_percentage: u8,
    staking_percentage: u8,
    burn_percentage: u8,
) -> bool {
    &&& prize_percentage + revenue_percentage <= u8::MAX
    &&& prize_percentage + revenue_percentage + staking_percentage <= u8::MAX
    &&& prize_percentage + revenue_percentage + staking_percentage + burn_percentage <= u8::MAX
}

/// The accumulator after folding a staking-bucket injection into `pool`:
/// unchanged when nothing is staked (the injection is then stranded), else
/// grown by the per-weight delta, saturating.
pub open spec fn accumulator_after(pool: StakingPool, staking_amount: u64) -> u128 {
    if pool.total_weight > 0 {
        sat_add_u128(
            pool.acc_reward_per_weight as int,
            accrue_delta_spec(staking_amount, pool.total_weight) as int,
        )
    } else {
        pool.acc_reward_per_weight
    }
}

/// How a successful distribution rewrites the staking pool: only the
/// accumulator and the epoch counter move; totals, identity and token kind
/// stay.
pub open spec fn distribute_pool_ok(
    pool0: StakingPool,
    pool1: StakingPool,
    staking_amount: u64,
) -> bool {
    &&& pool1.admin == pool0.admin
    &&& pool1.mint == pool0.mint
    &&& pool1.total_staked == pool0.total_staked
    &&& pool1.total_weight == pool0.total_weight
    &&& pool1.acc_reward_per_weight == accumulator_after(pool0, staking_amount)
    &&& pool1.epoch_index == (if pool0.epoch_index < u64::MAX {
        pool0.epoch_index + 1
    } else {
        pool0.epoch_index as int
    })
    &&& pool1.token_type == pool0.token_type
}

/// The four floor shares of a split whose percentages sum to 100 never
/// exceed the whole, and fall short of it by at most 3 units: one unit of
/// floor rounding per bucket, and the burn bucket's loss counts against the
/// total too.
pub proof fn lemma_split_bounds(total: u64, p1: u8, p2: u8, p3: u8, p4: u8)
    requires
        p1 + p2 + p3 + p4 == 100,
    ensures
        pct_amount_spec(total, p1) + pct_amount_spec(total, p2) + pct_amount_spec(total, p3)
            + pct_amount_spec(total, p4) <= total,
        total - (pct_amount_spec(total, p1) + pct_amount_spec(total, p2)
            + pct_amount_spec(total, p3) + pct_amount_spec(total, p4)) <= 3,
{
    let t = total as int;
    lemma_pct_exact(total, p1);
    lemma_pct_exact(total, p2);
    lemma_pct_exact(total, p3);
    lemma_pct_exact(total, p4);
    lemma_fundamental_div_mod(t * p1, 100);
    lemma_fundamental_div_mod(t * p2, 100);
    lemma_fundamental_div_mod(t * p3, 100);
    lemma_fundamental_div_mod(t * p4, 100);
    lemma_mod_bound(t * p1, 100);
    lemma_mod_bound(t * p2, 100);
    lemma_mod_bound(t * p3, 100);
    lemma_mod_bound(t * p4, 100);
    assert(t * p1 + t * p2 + t * p3 + t * p4 == t * (p1 + p2 + p3 + p4)) by (nonlinear_arith);
    assert(t * (p1 + p2 + p3 + p4) == t * 100) by (nonlinear_arith)
        requires
            p1 + p2 + p3 + p4 == 100,
    ;
}

proof fn lemma_pct_exact(total: u64, pct: u8)
    requires
        pct <= 100,
    ensures
        pct_amount_spec(total, pct) == (total * pct) / 100,
        pct_amount_spec(total, pct) <= total,
        total * pct >= 0,
{
    assert((total * pct) / 100 <= total && total * pct >= 0) by (nonlinear_arith)
        requires
            pct <= 100,
            total >= 0,
    ;
}

/// Splits an ended tournament's pot by the given percentages, credits the
/// prize, revenue and reward ledgers, folds the staking bucket into the
/// reward accumulator, and closes the tournament. Only the creator may
/// distribute; the percentages must sum to exactly 100; the split may
/// strand at most 3 units of rounding dust (and the burn bucket leaves
/// circulation entirely). On success the host must move each bucket out of
/// the tournament's custody accordingly.
pub fn distribute_tournament_revenue(
    tournament_pool: &mut TournamentPool,
    prize_pool: &mut PrizePool,
    revenue_pool: &mut RevenuePool,
    reward_pool: &mut RewardPool,
    staking_pool: &mut StakingPool,
    creator: u64,
    prize_percentage: u8,
    revenue_percentage: u8,
    staking_percentage: u8,
    burn_percentage: u8,
    now: i64,
) -> (result: Result<RevenueDistribution, TournamentError>)
    ensures
        result is Err ==> *final(tournament_pool) == *old(tournament_pool)
            && *final(prize_pool) == *old(prize_pool)
            && *final(revenue_pool) == *old(revenue_pool)
            && *final(reward_pool) == *old(reward_pool)
            && *final(staking_pool) == *old(staking_pool),
        result == Err::<RevenueDistribution, TournamentError>(TournamentError::Unauthorized)
            <==> old(tournament_pool).admin != creator,
        result == Err::<RevenueDistribution, TournamentError>(TournamentError::InvalidPercentages)
            <==> old(tournament_pool).admin == creator
                && percentages_fit(
                    prize_percentage,
                    revenue_percentage,
                    staking_percentage,
                    burn_percentage,
                )
                && prize_percentage + revenue_percentage + staking_percentage + burn_percentage
                    != 100,
        result == Err::<RevenueDistribution, TournamentError>(TournamentError::TournamentNotActive)
            <==> old(tournament_pool).admin == creator
                && percentages_fit(
                    prize_percentage,
                    revenue_percentage,
                    staking_percentage,
                    burn_percentage,
                )
                && prize_percentage + revenue_percentage + staking_percentage + burn_percentage
                    == 100
                && (now < old(tournament_pool).end_time || !old(tournament_pool).is_active),
        result == Err::<RevenueDistribution, TournamentError>(TournamentError::InsufficientFunds)
            <==> old(tournament_pool).admin == creator
                && percentages_fit(
                    prize_percentage,
                    revenue_percentage,
                    staking_percentage,
                    burn_percentage,
                )
                && prize_percentage + revenue_percentage + staking_percentage + burn_percentage
                    == 100
                && now >= old(tournament_pool).end_time && old(tournament_pool).is_active
                && old(tournament_pool).total_funds == 0,
        result == Err::<RevenueDistribution, TournamentError>(TournamentError::MathOverflow)
            <==> old(tournament_pool).admin == creator
                && (!percentages_fit(
                    prize_percentage,
                    revenue_percentage,
                    staking_percentage,
                    burn_percentage,
                ) || (prize_percentage + revenue_percentage + staking_percentage + burn_percentage
                        == 100
                    && now >= old(tournament_pool).end_time && old(tournament_pool).is_active
                    && old(tournament_pool).total_funds > 0
                    && !buckets_fit(
                        *old(tournament_pool),
                        *old(prize_pool),
                        *old(revenue_pool),
                        *old(reward_pool),
                        prize_percentage,
                        revenue_percentage,
                        staking_percentage,
                    ))),
        result is Ok <==> old(tournament_pool).admin == creator
            && percentages_fit(
                prize_percentage,
                revenue_percentage,
                staking_percentage,
                burn_percentage,
            )
            && prize_percentage + revenue_percentage + staking_percentage + burn_percentage == 100
            && now >= old(tournament_pool).end_time && old(tournament_pool).is_active
            && old(tournament_pool).total_funds > 0
            && buckets_fit(
                *old(tournament_pool),
                *old(prize_pool),
                *old(revenue_pool),
                *old(reward_pool),
                prize_percentage,
                revenue_percentage,
                staking_percentage,
            ),
        result matches Ok(d) ==> {
            let funds = old(tournament_pool).total_funds;
            &&& d.prize_amount == pct_amount_spec(funds, prize_percentage)
            &&& d.revenue_amount == pct_amount_spec(funds, revenue_percentage)
            &&& d.staking_amount == pct_amount_spec(funds, staking_percentage)
            &&& d.burn_amount == pct_amount_spec(funds, burn_percentage)
            &&& d.prize_amount + d.revenue_amount + d.staking_amount + d.burn_amount <= funds
            &&& funds - (d.prize_amount + d.revenue_amount + d.staking_amount + d.burn_amount)
                <= 3
            &&& final(tournament_pool).admin == old(tournament_pool).admin
            &&& final(tournament_pool).mint == old(tournament_pool).mint
            &&& final(tournament_pool).tournament_id@ == old(tournament_pool).tournament_id@
            &&& final(tournament_pool).entry_fee == old(tournament_pool).entry_fee
            &&& final(tournament_pool).total_funds == 0
            &&& final(tournament_pool).participant_count == old(tournament_pool).participant_count
            &&& final(tournament_pool).max_participants == old(tournament_pool).max_participants
            &&& final(tournament_pool).end_time == old(tournament_pool).end_time
            &&& !final(tournament_pool).is_active
            &&& final(tournament_pool).token_type == old(tournament_pool).token_type
            &&& final(prize_pool).admin == old(prize_pool).admin
            &&& final(prize_pool).tournament_pool == old(prize_pool).tournament_pool
            &&& final(prize_pool).mint == old(prize_pool).mint
            &&& final(prize_pool).tournament_id@ == old(prize_pool).tournament_id@
            &&& final(prize_pool).total_funds == old(prize_pool).total_funds + d.prize_amount
            &&& final(prize_pool).distributed == old(prize_pool).distributed
            &&& final(prize_pool).token_type == old(prize_pool).token_type
            &&& final(revenue_pool).admin == old(revenue_pool).admin
            &&& final(revenue_pool).mint == old(revenue_pool).mint
            &&& final(revenue_pool).total_funds == old(revenue_pool).total_funds + d.revenue_amount
            &&& final(revenue_pool).last_distribution == now
            &&& final(revenue_pool).token_type == old(revenue_pool).token_type
            &&& final(reward_pool).admin == old(reward_pool).admin
            &&& final(reward_pool).mint == old(reward_pool).mint
            &&& final(reward_pool).total_funds == old(reward_pool).total_funds + d.staking_amount
            &&& final(reward_pool).last_distribution == old(reward_pool).last_distribution
            &&& final(reward_pool).token_type == old(reward_pool).token_type
            &&& distribute_pool_ok(*old(staking_pool), *final(staking_pool), d.staking_amount)
        },
        final(staking_pool).acc_reward_per_weight >= old(staking_pool).acc_reward_per_weight,
{
    if tournament_pool.admin != creator {
        return Err(TournamentError::Unauthorized);
    }
    let partial_1 = match prize_percentage.checked_add(revenue_percentage) {
        Some(v) => v,
        None => {
            return Err(TournamentError::MathOverflow);
        },
    };
    let partial_2 = match partial_1.checked_add(staking_percentage) {
        Some(v) => v,
        None => {
            return Err(TournamentError::MathOverflow);
        },
    };
    let total_pct = match partial_2.checked_add(burn_percentage) {
        Some(v) => v,
        None => {
            return Err(TournamentError::MathOverflow);
        },
    };
    if total_pct != 100 {
        return Err(TournamentError::InvalidPercentages);
    }
    if now < tournament_pool.end_time {
        return Err(TournamentError::TournamentNotActive);
    }
    if !tournament_pool.is_active {
        return Err(TournamentError::TournamentNotActive);
    }
    let total_funds = tournament_pool.total_funds;
    if total_funds == 0 {
        return Err(TournamentError::InsufficientFunds);
    }

    let prize_amount = pct_amount(total_funds, prize_percentage);
    let revenue_amount = pct_amount(total_funds, revenue_percentage);
    let staking_amount = pct_amount(total_funds, staking_percentage);
    let burn_amount = pct_amount(total_funds, burn_percentage);
    proof {
        lemma_split_bounds(
            total_funds,
            prize_percentage,
            revenue_percentage,
            staking_percentage,
            burn_percentage,
        );
    }

    // validate every ledger addition before the first write, so a failure
    // leaves nothing half-applied
    let new_prize_funds = match prize_pool.total_funds.checked_add(prize_amount) {
        Some(v) => v,
        None => {
            return Err(TournamentError::MathOverflow);
        },
    };
    let new_revenue_funds = match revenue_pool.total_funds.checked_add(revenue_amount) {
        Some(v) => v,
        None => {
            return Err(TournamentError::MathOverflow);
        },
    };
    let new_reward_funds = match reward_pool.total_funds.checked_add(staking_amount) {
        Some(v) => v,
        None => {
            return Err(TournamentError::MathOverflow);
        },
    };

    prize_pool.total_funds = new_prize_funds;
    revenue_pool.total_funds = new_revenue_funds;
    revenue_pool.last_distribution = now;
    reward_pool.total_funds = new_reward_funds;

    // the staking bucket is the sole input to the accumulator update, and
    // the update is the same for both token kinds
    if staking_pool.total_weight > 0 {
        let delta = accrue_delta(staking_amount, staking_pool.total_weight);
        staking_pool.acc_reward_per_weight =
            match staking_pool.acc_reward_per_weight.checked_add(delta) {
                Some(v) => v,
                None => u128::MAX,
            };
    }
    staking_pool.epoch_index = if staking_pool.epoch_index < u64::MAX {
        staking_pool.epoch_index + 1
    } else {
        staking_pool.epoch_index
    };

    tournament_pool.is_active = false;
    tournament_pool.total_funds = 0;

    Ok(RevenueDistribution { prize_amount, revenue_amount, staking_amount, burn_amount })
}

/// All three bucket additions of a distribution fit their ledgers'
/// 64-bit balances.
pub open spec fn buckets_fit(
    tournament: TournamentPool,
    prize: PrizePool,
    revenue: RevenuePool,
    reward: RewardPool,
    prize_percentage: u8,
    revenue_percentage: u8,
    staking_percentage: u8,
) -> bool {
    &&& prize.total_funds + pct_amount_spec(tournament.total_funds, prize_percentage) <= u64::MAX
    &&& revenue.total_funds + pct_amount_spec(tournament.total_funds, revenue_percentage)
        <= u64::MAX
    &&& reward.total_funds + pct_amount_spec(tournament.total_funds, staking_percentage)
        <= u64::MAX
}

} // verus!
