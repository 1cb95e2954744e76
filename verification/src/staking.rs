//! The staking pool, per-participant positions, and the four position
//! operations: stake, unstake, accrue and claim.
//!
//! Reward accounting follows the shared-accumulator discipline: a revenue
//! distribution only bumps the pool-wide `acc_reward_per_weight`; each
//! position settles lazily, whenever its own weight changes or its owner
//! reads their entitlement, by comparing the current accumulator against the
//! position's stored `reward_debt` baseline.
//!
//! Every operation either fully succeeds or fails with all state untouched.
//! Moving the actual funds is the host's job: stake reports how much to pull
//! into escrow, unstake and claim report how much to pay out.

use vstd::prelude::*;
use crate::errors::StakingError;
use crate::lock::{stake_weight, stake_weight_spec, valid_lock_duration, validate_lock_duration};
use crate::math::{
    cap_to_u64, cap_u64, sat_add_u128, sat_add_u64, saturating_add_u64, settle, settle_spec,
};
use crate::rewards::RewardPool;
use crate::token_type::TokenType;

verus! {

/// Aggregate state of one staking pool (one per admin and token type).
#[derive(Clone, Copy, Debug, PartialEq, Eq, Structural)]
pub struct StakingPool {
    /// The one authority allowed to run revenue distributions into this pool.
    pub admin: u64,
    /// The asset the pool settles in (the pool's own address for the native kind).
    pub mint: u64,
    /// Sum of all live positions' principal.
    pub total_staked: u64,
    /// Sum of all live positions' weight.
    pub total_weight: u128,
    /// Cumulative reward per unit of weight, scaled by `ACC_PRECISION`;
    /// never decreases over the pool's lifetime.
    pub acc_reward_per_weight: u128,
    /// Count of distribution events, for observability only.
    pub epoch_index: u64,
    /// Which ledger-transfer path moves this pool's funds.
    pub token_type: TokenType,
}

/// One participant's position in a staking pool.
#[derive(Clone, Copy, Debug, PartialEq, Eq, Structural)]
pub struct UserStakingAccount {
    /// The participant this position belongs to.
    pub owner: u64,
    /// Principal currently locked.
    pub staked_amount: u64,
    /// When the latest stake was made (bookkeeping only).
    pub stake_timestamp: i64,
    /// The lock commitment of the latest stake (multiplier input).
    pub lock_duration: i64,
    /// Principal scaled by the lock multiplier, summed over stakes not yet
    /// withdrawn.
    pub weight: u128,
    /// `settle_spec(weight, accumulator)` at the last settlement: the
    /// baseline subtracted so only rewards earned since then count.
    pub reward_debt: u128,
    /// Rewards settled but not yet claimed.
    pub pending_rewards: u64,
}

/// Rewards newly earned by `pos` since its last settlement: total
/// entitlement under `accumulator` minus the stored debt baseline, floored
/// at zero.
pub open spec fn settled_delta(pos: UserStakingAccount, accumulator: u128) -> u128 {
    let accumulated = settle_spec(pos.weight, accumulator);
    if accumulated > pos.reward_debt {
        (accumulated - pos.reward_debt) as u128
    } else {
        0
    }
}

/// `pending_rewards` after folding in the newly earned delta, each step
/// capped at `u64::MAX`.
pub open spec fn pending_after_settle(pos: UserStakingAccount, accumulator: u128) -> u64 {
    sat_add_u64(pos.pending_rewards as int, cap_u64(settled_delta(pos, accumulator)) as int)
}

/// Everything `pos` could claim right now: unsettled delta plus already
/// settled pending rewards, capped at `u64::MAX`.
pub open spec fn claimable_spec(pos: UserStakingAccount, accumulator: u128) -> u64 {
    cap_u64(sat_add_u128(settled_delta(pos, accumulator) as int, pos.pending_rewards as int))
}

/// Structural soundness of a position: one holding no principal carries no
/// weight. Freshly created positions are all-zero, stake only ever adds
/// principal and weight together, and unstake zeroes both, so every
/// reachable position satisfies this.
pub open spec fn position_wf(pos: UserStakingAccount) -> bool {
    pos.staked_amount == 0 ==> pos.weight == 0
}

/// A participant may mutate only their own position; a position that holds
/// no principal yet is free to be (re)bound.
pub open spec fn stake_authorized(pos: UserStakingAccount, user: u64) -> bool {
    pos.staked_amount == 0 || pos.owner == user
}

/// All four principal/weight additions of a stake fit their fixed widths.
/// Principal accounting never saturates: an addition that would overflow
/// fails the whole operation instead.
pub open spec fn stake_fits(
    pool: StakingPool,
    pos: UserStakingAccount,
    amount: u64,
    lock_duration: i64,
) -> bool {
    let w = stake_weight_spec(amount, lock_duration);
    &&& pos.staked_amount + amount <= u64::MAX
    &&& pos.weight + w <= u128::MAX
    &&& pool.total_staked + amount <= u64::MAX
    &&& pool.total_weight + w <= u128::MAX
}

/// A freshly initialized pool for `admin`.
pub open spec fn fresh_staking_pool(
    pool: StakingPool,
    admin: u64,
    mint: u64,
    pool_address: u64,
    token_type: TokenType,
) -> bool {
    &&& pool.admin == admin
    &&& pool.mint == (if token_type == TokenType::SOL {
        pool_address
    } else {
        mint
    })
    &&& pool.total_staked == 0
    &&& pool.total_weight == 0
    &&& pool.acc_reward_per_weight == 0
    &&& pool.epoch_index == 0
    &&& pool.token_type == token_type
}

/// How a successful stake of `amount` under `lock_duration` at time `now`
/// rewrites the position and the pool: pending rewards are settled under the
/// old weight first, principal and weight grow by the same delta on both
/// sides, and the debt baseline is recomputed under the new weight.
pub open spec fn stake_ok(
    pool0: StakingPool,
    pool1: StakingPool,
    pos0: UserStakingAccount,
    pos1: UserStakingAccount,
    user: u64,
    amount: u64,
    lock_duration: i64,
    now: i64,
) -> bool {
    let w = stake_weight_spec(amount, lock_duration);
    &&& pos1.owner == user
    &&& pos1.staked_amount == pos0.staked_amount + amount
    &&& pos1.weight == pos0.weight + w
    &&& pos1.stake_timestamp == now
    &&& pos1.lock_duration == lock_duration
    &&& pos1.pending_rewards == (if pos0.staked_amount > 0 {
        pending_after_settle(pos0, pool0.acc_reward_per_weight)
    } else {
        pos0.pending_rewards
    })
    &&& pos1.reward_debt == settle_spec(pos1.weight, pool0.acc_reward_per_weight)
    &&& pool1.total_staked == pool0.total_staked + amount
    &&& pool1.total_weight == pool0.total_weight + w
    &&& pool1.acc_reward_per_weight == pool0.acc_reward_per_weight
    &&& pool1.admin == pool0.admin
    &&& pool1.mint == pool0.mint
    &&& pool1.epoch_index == pool0.epoch_index
    &&& pool1.token_type == pool0.token_type
}

/// How a successful full unstake rewrites the position and the pool:
/// pending rewards are settled and kept, principal and weight leave both
/// sides, and the debt baseline resets to zero.
pub open spec fn unstake_ok(
    pool0: StakingPool,
    pool1: StakingPool,
    pos0: UserStakingAccount,
    pos1: UserStakingAccount,
) -> bool {
    &&& pos1.owner == pos0.owner
    &&& pos1.staked_amount == 0
    &&& pos1.stake_timestamp == pos0.stake_timestamp
    &&& pos1.lock_duration == pos0.lock_duration
    &&& pos1.weight == 0
    &&& pos1.reward_debt == 0
    &&& pos1.pending_rewards == pending_after_settle(pos0, pool0.acc_reward_per_weight)
    &&& pool1.total_staked == pool0.total_staked - pos0.staked_amount
    &&& pool1.total_weight == (if pool0.total_weight >= pos0.weight {
        (pool0.total_weight - pos0.weight) as u128
    } else {
        0
    })
    &&& pool1.acc_reward_per_weight == pool0.acc_reward_per_weight
    &&& pool1.admin == pool0.admin
    &&& pool1.mint == pool0.mint
    &&& pool1.epoch_index == pool0.epoch_index
    &&& pool1.token_type == pool0.token_type
}

/// How a successful accrue rewrites the position: when anything new was
/// earned, it moves into `pending_rewards` (capped) and the debt baseline
/// catches up to the current accumulator; otherwise nothing changes.
pub open spec fn accrue_ok(
    pool: StakingPool,
    pos0: UserStakingAccount,
    pos1: UserStakingAccount,
    settled: u64,
) -> bool {
    let delta = settled_delta(pos0, pool.acc_reward_per_weight);
    if delta > 0 {
        &&& settled == cap_u64(delta)
        &&& pos1.owner == pos0.owner
        &&& pos1.staked_amount == pos0.staked_amount
        &&& pos1.stake_timestamp == pos0.stake_timestamp
        &&& pos1.lock_duration == pos0.lock_duration
        &&& pos1.weight == pos0.weight
        &&& pos1.reward_debt == settle_spec(pos0.weight, pool.acc_reward_per_weight)
        &&& pos1.pending_rewards == sat_add_u64(pos0.pending_rewards as int, settled as int)
    } else {
        &&& settled == 0
        &&& pos1 == pos0
    }
}

/// How a successful claim rewrites the position and the reward ledger: the
/// full entitlement leaves the ledger, pending rewards zero out, and the
/// debt baseline catches up to the current accumulator.
pub open spec fn claim_ok(
    pool: StakingPool,
    reward0: RewardPool,
    reward1: RewardPool,
    pos0: UserStakingAccount,
    pos1: UserStakingAccount,
    claimed: u64,
) -> bool {
    &&& claimed == claimable_spec(pos0, pool.acc_reward_per_weight)
    &&& reward1.admin == reward0.admin
    &&& reward1.mint == reward0.mint
    &&& reward1.total_funds == reward0.total_funds - claimed
    &&& reward1.last_distribution == reward0.last_distribution
    &&& reward1.token_type == reward0.token_type
    &&& pos1.owner == pos0.owner
    &&& pos1.staked_amount == pos0.staked_amount
    &&& pos1.stake_timestamp == pos0.stake_timestamp
    &&& pos1.lock_duration == pos0.lock_duration
    &&& pos1.weight == pos0.weight
    &&& pos1.reward_debt == settle_spec(pos0.weight, pool.acc_reward_per_weight)
    &&& pos1.pending_rewards == 0
}

/// Creates the staking pool for `admin`, guarded so a live pool is never
/// reset: a pool that still holds principal refuses re-initialization.
/// For the native token kind the pool's own address stands in for the mint.
pub fn initialize_accounts(
    staking_pool: &mut StakingPool,
    admin: u64,
    mint: u64,
    pool_address: u64,
    token_type: TokenType,
) -> (result: Result<(), StakingError>)
    ensures
        result is Err <==> old(staking_pool).total_staked != 0,
        result is Err ==> result == Err::<(), StakingError>(StakingError::AlreadyInitialized)
            && *final(staking_pool) == *old(staking_pool),
        result is Ok ==> fresh_staking_pool(*final(staking_pool), admin, mint, pool_address, token_type),
{
    if staking_pool.total_staked != 0 {
        return Err(StakingError::AlreadyInitialized);
    }
    staking_pool.admin = admin;
    staking_pool.total_staked = 0;
    staking_pool.total_weight = 0;
    staking_pool.acc_reward_per_weight = 0;
    staking_pool.epoch_index = 0;
    staking_pool.token_type = token_type;
    staking_pool.mint = if token_type == TokenType::SOL {
        pool_address
    } else {
        mint
    };
    Ok(())
}

/// Stakes `amount` under `lock_duration` for `user`. On success the host
/// must have moved `amount` into escrow; internal state is only rewritten
/// as `stake_ok` says, with every addition checked so nothing partial ever
/// persists.
pub fn stake(
    staking_pool: &mut StakingPool,
    user_staking_account: &mut UserStakingAccount,
    user: u64,
    amount: u64,
    lock_duration: i64,
    now: i64,
) -> (result: Result<(), StakingError>)
    ensures
        result is Err ==> *final(staking_pool) == *old(staking_pool)
            && *final(user_staking_account) == *old(user_staking_account),
        result == Err::<(), StakingError>(StakingError::InvalidLockDuration)
            <==> !valid_lock_duration(lock_duration),
        result == Err::<(), StakingError>(StakingError::InsufficientBalance)
            <==> valid_lock_duration(lock_duration) && amount == 0,
        result == Err::<(), StakingError>(StakingError::Unauthorized)
            <==> valid_lock_duration(lock_duration) && amount > 0
                && !stake_authorized(*old(user_staking_account), user),
        result == Err::<(), StakingError>(StakingError::MathOverflow)
            <==> valid_lock_duration(lock_duration) && amount > 0
                && stake_authorized(*old(user_staking_account), user)
                && !stake_fits(*old(staking_pool), *old(user_staking_account), amount, lock_duration),
        result is Ok <==> valid_lock_duration(lock_duration) && amount > 0
            && stake_authorized(*old(user_staking_account), user)
            && stake_fits(*old(staking_pool), *old(user_staking_account), amount, lock_duration),
        result is Ok ==> stake_ok(
            *old(staking_pool),
            *final(staking_pool),
            *old(user_staking_account),
            *final(user_staking_account),
            user,
            amount,
            lock_duration,
            now,
        ),
        final(staking_pool).acc_reward_per_weight >= old(staking_pool).acc_reward_per_weight,
        result is Ok ==> position_wf(*final(user_staking_account)),
{
    if let Err(e) = validate_lock_duration(lock_duration) {
        return Err(e);
    }
    if amount == 0 {
        return Err(StakingError::InsufficientBalance);
    }
    if user_staking_account.staked_amount > 0 && user_staking_account.owner != user {
        return Err(StakingError::Unauthorized);
    }
    let added_weight = stake_weight(amount, lock_duration);

    // validate every addition before the first write, so a failure leaves
    // nothing half-applied
    let new_staked = match user_staking_account.staked_amount.checked_add(amount) {
        Some(v) => v,
        None => {
            return Err(StakingError::MathOverflow);
        },
    };
    let new_weight = match user_staking_account.weight.checked_add(added_weight) {
        Some(v) => v,
        None => {
            return Err(StakingError::MathOverflow);
        },
    };
    let new_total_staked = match staking_pool.total_staked.checked_add(amount) {
        Some(v) => v,
        None => {
            return Err(StakingError::MathOverflow);
        },
    };
    let new_total_weight = match staking_pool.total_weight.checked_add(added_weight) {
        Some(v) => v,
        None => {
            return Err(StakingError::MathOverflow);
        },
    };

    // settle what the old weight earned before the weight changes
    if user_staking_account.staked_amount > 0 {
        let accumulated = settle(user_staking_account.weight, staking_pool.acc_reward_per_weight);
        let delta: u128 = if accumulated > user_staking_account.reward_debt {
            accumulated - user_staking_account.reward_debt
        } else {
            0
        };
        let add = cap_to_u64(delta);
        user_staking_account.pending_rewards =
            saturating_add_u64(user_staking_account.pending_rewards, add);
    }

    user_staking_account.owner = user;
    user_staking_account.staked_amount = new_staked;
    user_staking_account.stake_timestamp = now;
    user_staking_account.lock_duration = lock_duration;
    user_staking_account.weight = new_weight;
    user_staking_account.reward_debt = settle(new_weight, staking_pool.acc_reward_per_weight);
    staking_pool.total_staked = new_total_staked;
    staking_pool.total_weight = new_total_weight;
    Ok(())
}

/// Withdraws the full principal of `user`'s position (there is no partial
/// unstake). The lock duration is purely a multiplier input and never
/// blocks withdrawal, uniformly for every position. On success the host
/// must pay the returned amount back to the owner.
/// Settled-but-unclaimed rewards survive in `pending_rewards`; the
/// pool's weight subtraction saturates so rounding can never drive it below
/// zero, while the principal subtraction is exact and checked.
pub fn unstake(
    staking_pool: &mut StakingPool,
    user_staking_account: &mut UserStakingAccount,
    user: u64,
) -> (result: Result<u64, StakingError>)
    ensures
        result is Err ==> *final(staking_pool) == *old(staking_pool)
            && *final(user_staking_account) == *old(user_staking_account),
        result == Err::<u64, StakingError>(StakingError::Unauthorized)
            <==> old(user_staking_account).owner != user,
        result == Err::<u64, StakingError>(StakingError::InsufficientStakedBalance)
            <==> old(user_staking_account).owner == user
                && old(user_staking_account).staked_amount == 0,
        result == Err::<u64, StakingError>(StakingError::MathOverflow)
            <==> old(user_staking_account).owner == user
                && old(user_staking_account).staked_amount > 0
                && old(staking_pool).total_staked < old(user_staking_account).staked_amount,
        result is Ok <==> old(user_staking_account).owner == user
            && old(user_staking_account).staked_amount > 0
            && old(staking_pool).total_staked >= old(user_staking_account).staked_amount,
        result matches Ok(amount) ==> amount == old(user_staking_account).staked_amount
            && unstake_ok(
                *old(staking_pool),
                *final(staking_pool),
                *old(user_staking_account),
                *final(user_staking_account),
            ),
        final(staking_pool).acc_reward_per_weight >= old(staking_pool).acc_reward_per_weight,
        result is Ok ==> position_wf(*final(user_staking_account)),
{
    if user_staking_account.owner != user {
        return Err(StakingError::Unauthorized);
    }
    if user_staking_account.staked_amount == 0 {
        return Err(StakingError::InsufficientStakedBalance);
    }
    let amount = user_staking_account.staked_amount;
    let new_total_staked = match staking_pool.total_staked.checked_sub(amount) {
        Some(v) => v,
        None => {
            return Err(StakingError::MathOverflow);
        },
    };

    let accumulated = settle(user_staking_account.weight, staking_pool.acc_reward_per_weight);
    let delta: u128 = if accumulated > user_staking_account.reward_debt {
        accumulated - user_staking_account.reward_debt
    } else {
        0
    };
    let add = cap_to_u64(delta);
    user_staking_account.pending_rewards =
        saturating_add_u64(user_staking_account.pending_rewards, add);

    staking_pool.total_staked = new_total_staked;
    staking_pool.total_weight = if staking_pool.total_weight >= user_staking_account.weight {
        staking_pool.total_weight - user_staking_account.weight
    } else {
        0
    };
    user_staking_account.staked_amount = 0;
    user_staking_account.weight = 0;
    user_staking_account.reward_debt = 0;
    Ok(amount)
}

/// Checkpoints `user`'s earnings without staking, unstaking or claiming:
/// moves anything newly earned into `pending_rewards` and advances the debt
/// baseline. Returns the settled amount; calling it again with no
/// intervening distribution settles nothing more.
pub fn accrue_rewards(
    staking_pool: &StakingPool,
    user_staking_account: &mut UserStakingAccount,
    user: u64,
) -> (result: Result<u64, StakingError>)
    ensures
        result is Err ==> *final(user_staking_account) == *old(user_staking_account),
        result == Err::<u64, StakingError>(StakingError::Unauthorized)
            <==> old(user_staking_account).owner != user,
        result is Ok <==> old(user_staking_account).owner == user,
        result matches Ok(settled) ==> accrue_ok(
            *staking_pool,
            *old(user_staking_account),
            *final(user_staking_account),
            settled,
        ),
{
    if user_staking_account.owner != user {
        return Err(StakingError::Unauthorized);
    }
    let accumulated = settle(user_staking_account.weight, staking_pool.acc_reward_per_weight);
    let delta: u128 = if accumulated > user_staking_account.reward_debt {
        accumulated - user_staking_account.reward_debt
    } else {
        0
    };
    if delta > 0 {
        let add = cap_to_u64(delta);
        user_staking_account.pending_rewards =
            saturating_add_u64(user_staking_account.pending_rewards, add);
        user_staking_account.reward_debt = accumulated;
        Ok(add)
    } else {
        Ok(0)
    }
}

/// Pays out everything `user`'s position has earned. The reward ledger must
/// cover the whole entitlement or the claim fails: there is no partial
/// payout. On success the host must transfer the returned amount to the
/// owner; the ledger shrinks by exactly that amount and the position's debt
/// baseline catches up to the current accumulator.
pub fn claim_rewards(
    staking_pool: &StakingPool,
    reward_pool: &mut RewardPool,
    user_staking_account: &mut UserStakingAccount,
    user: u64,
) -> (result: Result<u64, StakingError>)
    ensures
        result is Err ==> *final(reward_pool) == *old(reward_pool)
            && *final(user_staking_account) == *old(user_staking_account),
        result == Err::<u64, StakingError>(StakingError::Unauthorized)
            <==> old(user_staking_account).owner != user,
        result == Err::<u64, StakingError>(StakingError::InsufficientStakedBalance)
            <==> old(user_staking_account).owner == user
                && claimable_spec(*old(user_staking_account), staking_pool.acc_reward_per_weight)
                    == 0,
        result == Err::<u64, StakingError>(StakingError::InsufficientBalance)
            <==> old(user_staking_account).owner == user
                && claimable_spec(*old(user_staking_account), staking_pool.acc_reward_per_weight)
                    > 0
                && old(reward_pool).total_funds
                    < claimable_spec(*old(user_staking_account), staking_pool.acc_reward_per_weight),
        result is Ok <==> old(user_staking_account).owner == user
            && claimable_spec(*old(user_staking_account), staking_pool.acc_reward_per_weight) > 0
            && old(reward_pool).total_funds
                >= claimable_spec(*old(user_staking_account), staking_pool.acc_reward_per_weight),
        result matches Ok(claimed) ==> claim_ok(
            *staking_pool,
            *old(reward_pool),
            *final(reward_pool),
            *old(user_staking_account),
            *final(user_staking_account),
            claimed,
        ),
{
    if user_staking_account.owner != user {
        return Err(StakingError::Unauthorized);
    }
    let accumulated = settle(user_staking_account.weight, staking_pool.acc_reward_per_weight);
    let delta: u128 = if accumulated > user_staking_account.reward_debt {
        accumulated - user_staking_account.reward_debt
    } else {
        0
    };
    let claimable_u128: u128 = match delta.checked_add(user_staking_account.pending_rewards as u128) {
        Some(v) => v,
        None => u128::MAX,
    };
    let claimable = cap_to_u64(claimable_u128);
    if claimable == 0 {
        return Err(StakingError::InsufficientStakedBalance);
    }
    if reward_pool.total_funds < claimable {
        return Err(StakingError::InsufficientBalance);
    }
    reward_pool.total_funds = reward_pool.total_funds - claimable;
    user_staking_account.pending_rewards = 0;
    user_staking_account.reward_debt = accumulated;
    Ok(claimable)
}

} // verus!
