//! The library's laws, proved once and for all over the operations'
//! transition relations: conservation of principal and weight between the
//! pool aggregates and the positions, idempotence of accrue, settlement
//! correctness for a sole staker, the absence of a front-running advantage
//! around a distribution event, and that a full unstake ends a position's
//! earning for good.
//!
//! The accumulator's monotonicity and the rounding bound of the revenue
//! split are stated directly on the operations: every `ensures` of a
//! mutating operation includes `acc_reward_per_weight` never decreasing,
//! and `lemma_split_bounds` in the revenue module bounds the split's dust.

use vstd::prelude::*;
use vstd::arithmetic::div_mod::{
    lemma_div_is_ordered, lemma_div_multiples_vanish, lemma_fundamental_div_mod, lemma_mod_bound,
};
use vstd::arithmetic::mul::lemma_mul_inequality;
use crate::math::{accrue_delta_spec, settle_spec, ACC_PRECISION, BPS_DENOMINATOR};
use crate::lock::{
    lock_multiplier_bps_spec, stake_weight_spec, MULTIPLIER_12_BPS, MULTIPLIER_1_BPS,
};
use crate::revenue::distribute_pool_ok;
use crate::staking::{
    accrue_ok, claimable_spec, position_wf, settled_delta, stake_ok, unstake_ok, StakingPool,
    UserStakingAccount,
};

verus! {

/// What a live position contributes to the pool's `total_weight`: its
/// weight while it holds principal, nothing otherwise.
pub open spec fn position_weight_contribution(pos: UserStakingAccount) -> int {
    if pos.staked_amount > 0 {
        pos.weight as int
    } else {
        0
    }
}

/// Sum of the weights of all live positions.
pub open spec fn total_position_weight(positions: Seq<UserStakingAccount>) -> int
    decreases positions.len(),
{
    if positions.len() == 0 {
        0
    } else {
        total_position_weight(positions.drop_last()) + position_weight_contribution(
            positions.last(),
        )
    }
}

/// Sum of the principal of all positions.
pub open spec fn total_position_stake(positions: Seq<UserStakingAccount>) -> int
    decreases positions.len(),
{
    if positions.len() == 0 {
        0
    } else {
        total_position_stake(positions.drop_last()) + positions.last().staked_amount
    }
}

/// Conservation of weight: the pool's `total_weight` equals the sum of the
/// weights of all live positions.
pub open spec fn weight_conserved(pool: StakingPool, positions: Seq<UserStakingAccount>) -> bool {
    pool.total_weight == total_position_weight(positions)
}

/// Conservation of principal: the pool's `total_staked` equals the sum of
/// all positions' principal.
pub open spec fn principal_conserved(
    pool: StakingPool,
    positions: Seq<UserStakingAccount>,
) -> bool {
    pool.total_staked == total_position_stake(positions)
}

proof fn lemma_weight_sum_update(
    positions: Seq<UserStakingAccount>,
    i: int,
    pos: UserStakingAccount,
)
    requires
        0 <= i < positions.len(),
    ensures
        total_position_weight(positions.update(i, pos)) == total_position_weight(positions)
            - position_weight_contribution(positions[i]) + position_weight_contribution(pos),
    decreases positions.len(),
{
    let upd = positions.update(i, pos);
    if i == positions.len() - 1 {
        assert(upd.drop_last() =~= positions.drop_last());
    } else {
        lemma_weight_sum_update(positions.drop_last(), i, pos);
        assert(upd.drop_last() =~= positions.drop_last().update(i, pos));
        assert(upd.last() == positions.last());
    }
}

proof fn lemma_stake_sum_update(
    positions: Seq<UserStakingAccount>,
    i: int,
    pos: UserStakingAccount,
)
    requires
        0 <= i < positions.len(),
    ensures
        total_position_stake(positions.update(i, pos)) == total_position_stake(positions)
            - positions[i].staked_amount + pos.staked_amount,
    decreases positions.len(),
{
    let upd = positions.update(i, pos);
    if i == positions.len() - 1 {
        assert(upd.drop_last() =~= positions.drop_last());
    } else {
        lemma_stake_sum_update(positions.drop_last(), i, pos);
        assert(upd.drop_last() =~= positions.drop_last().update(i, pos));
        assert(upd.last() == positions.last());
    }
}

proof fn lemma_weight_sum_nonneg(positions: Seq<UserStakingAccount>)
    ensures
        total_position_weight(positions) >= 0,
    decreases positions.len(),
{
    if positions.len() > 0 {
        lemma_weight_sum_nonneg(positions.drop_last());
    }
}

proof fn lemma_weight_sum_at_least(positions: Seq<UserStakingAccount>, i: int)
    requires
        0 <= i < positions.len(),
    ensures
        total_position_weight(positions) >= position_weight_contribution(positions[i]),
    decreases positions.len(),
{
    if i == positions.len() - 1 {
        lemma_weight_sum_nonneg(positions.drop_last());
    } else {
        lemma_weight_sum_at_least(positions.drop_last(), i);
        assert(positions.drop_last()[i] == positions[i]);
    }
}

/// Law (conservation under stake): when the pool and the positions agree on
/// totals, a stake at position `i` keeps them agreeing — the position and
/// the pool gain exactly the same principal and exactly the same weight.
pub proof fn lemma_stake_preserves_conservation(
    pool0: StakingPool,
    pool1: StakingPool,
    positions: Seq<UserStakingAccount>,
    i: int,
    pos1: UserStakingAccount,
    user: u64,
    amount: u64,
    lock_duration: i64,
    now: i64,
)
    requires
        0 <= i < positions.len(),
        weight_conserved(pool0, positions),
        principal_conserved(pool0, positions),
        position_wf(positions[i]),
        amount > 0,
        stake_ok(pool0, pool1, positions[i], pos1, user, amount, lock_duration, now),
    ensures
        weight_conserved(pool1, positions.update(i, pos1)),
        principal_conserved(pool1, positions.update(i, pos1)),
{
    lemma_weight_sum_update(positions, i, pos1);
    lemma_stake_sum_update(positions, i, pos1);
}

/// Law (conservation under unstake): a full unstake at position `i` removes
/// exactly the position's principal and weight from the pool's totals; the
/// pool's saturating weight subtraction is exact here, because under
/// conservation the total can never be smaller than one live position's
/// weight.
pub proof fn lemma_unstake_preserves_conservation(
    pool0: StakingPool,
    pool1: StakingPool,
    positions: Seq<UserStakingAccount>,
    i: int,
    pos1: UserStakingAccount,
)
    requires
        0 <= i < positions.len(),
        weight_conserved(pool0, positions),
        principal_conserved(pool0, positions),
        positions[i].staked_amount > 0,
        unstake_ok(pool0, pool1, positions[i], pos1),
    ensures
        weight_conserved(pool1, positions.update(i, pos1)),
        principal_conserved(pool1, positions.update(i, pos1)),
        pool0.total_weight >= positions[i].weight,
{
    lemma_weight_sum_at_least(positions, i);
    lemma_weight_sum_update(positions, i, pos1);
    lemma_stake_sum_update(positions, i, pos1);
}

/// Law (conservation under settlement): accrue and claim only move reward
/// bookkeeping — principal, weight and the pool's totals stay, so both
/// conservation invariants carry over unchanged.
pub proof fn lemma_settlement_preserves_conservation(
    pool0: StakingPool,
    pool1: StakingPool,
    positions: Seq<UserStakingAccount>,
    i: int,
    pos1: UserStakingAccount,
)
    requires
        0 <= i < positions.len(),
        weight_conserved(pool0, positions),
        principal_conserved(pool0, positions),
        pos1.staked_amount == positions[i].staked_amount,
        pos1.weight == positions[i].weight,
        pool1.total_staked == pool0.total_staked,
        pool1.total_weight == pool0.total_weight,
    ensures
        weight_conserved(pool1, positions.update(i, pos1)),
        principal_conserved(pool1, positions.update(i, pos1)),
{
    lemma_weight_sum_update(positions, i, pos1);
    lemma_stake_sum_update(positions, i, pos1);
}

/// Law (conservation under distribution): a revenue distribution touches
/// only the accumulator and the epoch counter, never a position or a
/// total, so both conservation invariants carry over unchanged.
pub proof fn lemma_distribute_preserves_conservation(
    pool0: StakingPool,
    pool1: StakingPool,
    positions: Seq<UserStakingAccount>,
    staking_amount: u64,
)
    requires
        weight_conserved(pool0, positions),
        principal_conserved(pool0, positions),
        distribute_pool_ok(pool0, pool1, staking_amount),
    ensures
        weight_conserved(pool1, positions),
        principal_conserved(pool1, positions),
{
}

/// Law (idempotence of accrue): a second accrue with no intervening
/// distribution settles nothing — the first one left the debt baseline at
/// the current accumulator, so the second finds no new delta and changes
/// nothing.
pub proof fn lemma_accrue_idempotent(
    pool: StakingPool,
    pos0: UserStakingAccount,
    pos1: UserStakingAccount,
    pos2: UserStakingAccount,
    settled_first: u64,
    settled_second: u64,
)
    requires
        accrue_ok(pool, pos0, pos1, settled_first),
        accrue_ok(pool, pos1, pos2, settled_second),
    ensures
        settled_second == 0,
        pos2 == pos1,
        pos2.pending_rewards == pos1.pending_rewards,
{
}

/// Law (full unstake ends earning): after a full unstake the position holds
/// weight 0 and debt 0, and accrue stays a no-op against any later pool
/// state, however far the accumulator has grown, until the participant
/// stakes again.
pub proof fn lemma_unstake_zeroes_future_rewards(
    pool0: StakingPool,
    pool1: StakingPool,
    pos0: UserStakingAccount,
    pos1: UserStakingAccount,
    pool_later: StakingPool,
    pos2: UserStakingAccount,
    settled: u64,
)
    requires
        unstake_ok(pool0, pool1, pos0, pos1),
        accrue_ok(pool_later, pos1, pos2, settled),
    ensures
        pos1.weight == 0,
        pos1.reward_debt == 0,
        settled == 0,
        pos2 == pos1,
{
    assert(settle_spec(0, pool_later.acc_reward_per_weight) == 0);
}

/// Law (accrue does not change what is claimable): settling moves value
/// from "unsettled delta" into `pending_rewards` and re-baselines the debt,
/// leaving the claimable total as it was — as long as the total stays
/// below the `u64::MAX` cap.
pub proof fn lemma_accrue_preserves_claimable(
    pool: StakingPool,
    pos0: UserStakingAccount,
    pos1: UserStakingAccount,
    settled: u64,
)
    requires
        accrue_ok(pool, pos0, pos1, settled),
        settled_delta(pos0, pool.acc_reward_per_weight) + pos0.pending_rewards <= u64::MAX,
    ensures
        claimable_spec(pos1, pool.acc_reward_per_weight) == claimable_spec(
            pos0,
            pool.acc_reward_per_weight,
        ),
{
}

/// Law (settlement correctness): a participant stakes `amount` into an
/// empty pool, a distribution injects `injected` while they are the sole
/// staker, and a claim then pays exactly
/// `floor(weight * floor(injected * scale / weight) / scale)` — the
/// injected amount within floor rounding, and (together with
/// `lemma_accrue_preserves_claimable`) independent of whether accrue was
/// called in between.
pub proof fn lemma_settlement_correctness(
    pool0: StakingPool,
    pool1: StakingPool,
    pool2: StakingPool,
    pos0: UserStakingAccount,
    pos1: UserStakingAccount,
    user: u64,
    amount: u64,
    lock_duration: i64,
    stake_time: i64,
    injected: u64,
)
    requires
        pool0.total_weight == 0,
        pool0.acc_reward_per_weight == 0,
        pos0.staked_amount == 0,
        pos0.weight == 0,
        pos0.reward_debt == 0,
        pos0.pending_rewards == 0,
        amount > 0,
        stake_ok(pool0, pool1, pos0, pos1, user, amount, lock_duration, stake_time),
        distribute_pool_ok(pool1, pool2, injected),
    ensures
        pos1.weight > 0,
        claimable_spec(pos1, pool2.acc_reward_per_weight) == settle_spec(
            pos1.weight,
            accrue_delta_spec(injected, pos1.weight),
        ),
        claimable_spec(pos1, pool2.acc_reward_per_weight) <= injected,
        // the two floors together lose less than one unit plus one unit per
        // full scale of weight
        ACC_PRECISION * (injected - claimable_spec(pos1, pool2.acc_reward_per_weight))
            < pos1.weight + ACC_PRECISION,
{
    let w = pos1.weight as int;
    lemma_stake_weight_positive(amount, lock_duration);
    assert(pool1.total_weight == pos1.weight);
    let delta = accrue_delta_spec(injected, pos1.weight) as int;

    // the delta fits: injected * scale stays far below u128::MAX, and the
    // accumulator starts at zero, so the saturating addition is exact
    lemma_mul_inequality(injected as int, u64::MAX as int, ACC_PRECISION as int);
    lemma_div_is_ordered(0, injected * ACC_PRECISION, w);
    lemma_div_is_ordered(
        injected * ACC_PRECISION,
        u64::MAX * (ACC_PRECISION as int),
        w,
    );
    lemma_div_is_ordered_by_denominator_wrap(injected * ACC_PRECISION, w);
    assert(pool2.acc_reward_per_weight == delta);

    // the position's debt baseline is zero: its weight was minted while
    // the accumulator was still zero
    assert(settle_spec(pos1.weight, 0) == 0);
    assert(pos1.reward_debt == 0);

    // w * delta <= w * (injected * scale / w) <= injected * scale, so the
    // settle product does not saturate and the result stays within u64
    lemma_fundamental_div_mod(injected * ACC_PRECISION, w);
    lemma_mod_bound(injected * ACC_PRECISION, w);
    assert(w * delta <= injected * ACC_PRECISION) by (nonlinear_arith)
        requires
            w > 0,
            delta == (injected * ACC_PRECISION) / w,
            injected * ACC_PRECISION >= 0,
            w * ((injected * ACC_PRECISION) / w) <= injected * ACC_PRECISION,
    ;
    assert(u64::MAX * (ACC_PRECISION as int) < u128::MAX);
    assert((w * delta) / (ACC_PRECISION as int) <= injected) by {
        lemma_div_is_ordered(w * delta, injected * ACC_PRECISION, ACC_PRECISION as int);
        lemma_div_multiples_vanish(injected as int, ACC_PRECISION as int);
        assert((injected * ACC_PRECISION) / (ACC_PRECISION as int) == injected) by {
            assert(injected * ACC_PRECISION == ACC_PRECISION * injected) by (nonlinear_arith);
        }
    }
    assert(w * delta >= 0) by (nonlinear_arith)
        requires
            w > 0,
            delta >= 0,
    ;

    // decompose both floors to bound the total rounding loss
    let x = injected * (ACC_PRECISION as int);
    let p = w * delta;
    lemma_fundamental_div_mod(p, ACC_PRECISION as int);
    lemma_mod_bound(p, ACC_PRECISION as int);
    let settled = p / (ACC_PRECISION as int);
    assert(ACC_PRECISION * injected == x) by (nonlinear_arith)
        requires
            x == injected * (ACC_PRECISION as int),
    ;
    assert(ACC_PRECISION * (injected - settled) < w + ACC_PRECISION) by (nonlinear_arith)
        requires
            x == injected * (ACC_PRECISION as int),
            ACC_PRECISION * injected == x,
            x == w * delta + x % w,
            0 <= x % w < w,
            p == w * delta,
            p == (ACC_PRECISION as int) * settled + p % (ACC_PRECISION as int),
            0 <= p % (ACC_PRECISION as int) < ACC_PRECISION,
    ;
}

proof fn lemma_div_is_ordered_by_denominator_wrap(x: int, d: int)
    requires
        x >= 0,
        d >= 1,
    ensures
        x / d <= x,
{
    lemma_fundamental_div_mod(x, d);
    lemma_mod_bound(x, d);
    assert(x / d <= x) by (nonlinear_arith)
        requires
            x >= 0,
            d >= 1,
            x == d * (x / d) + x % d,
            x % d >= 0,
    ;
}

proof fn lemma_stake_weight_positive(amount: u64, lock_duration: i64)
    requires
        amount > 0,
    ensures
        stake_weight_spec(amount, lock_duration) >= amount,
{
    let m = lock_multiplier_bps_spec(lock_duration) as int;
    assert(m >= MULTIPLIER_1_BPS);
    assert(0 <= amount * m && amount * m <= u64::MAX * (MULTIPLIER_12_BPS as int))
        by (nonlinear_arith)
        requires
            0 <= amount <= u64::MAX,
            0 <= m <= MULTIPLIER_12_BPS,
    ;
    lemma_div_is_ordered_by_denominator_wrap(amount * m, BPS_DENOMINATOR as int);
    assert(amount * BPS_DENOMINATOR <= amount * m) by (nonlinear_arith)
        requires
            BPS_DENOMINATOR <= m,
            amount >= 0,
    ;
    lemma_div_is_ordered(
        amount * BPS_DENOMINATOR,
        amount * m,
        BPS_DENOMINATOR as int,
    );
    lemma_div_multiples_vanish(amount as int, BPS_DENOMINATOR as int);
    assert(amount * BPS_DENOMINATOR == BPS_DENOMINATOR * amount) by (nonlinear_arith);
}

proof fn lemma_div_superadditive(a: int, b: int, s: int)
    requires
        a >= 0,
        b >= 0,
        s > 0,
    ensures
        (a + b) / s >= a / s + b / s,
{
    lemma_fundamental_div_mod(a, s);
    lemma_mod_bound(a, s);
    lemma_fundamental_div_mod(b, s);
    lemma_mod_bound(b, s);
    lemma_fundamental_div_mod(a + b, s);
    lemma_mod_bound(a + b, s);
    assert((a + b) / s >= a / s + b / s) by (nonlinear_arith)
        requires
            s > 0,
            a == s * (a / s) + a % s,
            b == s * (b / s) + b % s,
            a + b == s * ((a + b) / s) + (a + b) % s,
            0 <= a % s < s,
            0 <= b % s < s,
            0 <= (a + b) % s < s,
    ;
}

/// Law (no front-running advantage): around one distribution event, a
/// participant who staked before it is owed exactly the growth of their
/// entitlement across the event — at least their full floor share of the
/// injected delta — while a participant staking the same amount under the
/// same lock right after the event is owed nothing from it.
pub proof fn lemma_no_front_running(
    pool0: StakingPool,
    pool1: StakingPool,
    pool2: StakingPool,
    pool3: StakingPool,
    pos_a0: UserStakingAccount,
    pos_a1: UserStakingAccount,
    pos_b0: UserStakingAccount,
    pos_b1: UserStakingAccount,
    user_a: u64,
    user_b: u64,
    amount: u64,
    lock_duration: i64,
    time_a: i64,
    time_b: i64,
    injected: u64,
)
    requires
        pos_a0.staked_amount == 0,
        pos_a0.weight == 0,
        pos_a0.pending_rewards == 0,
        pos_b0.staked_amount == 0,
        pos_b0.weight == 0,
        pos_b0.pending_rewards == 0,
        amount > 0,
        stake_ok(pool0, pool1, pos_a0, pos_a1, user_a, amount, lock_duration, time_a),
        distribute_pool_ok(pool1, pool2, injected),
        stake_ok(pool2, pool3, pos_b0, pos_b1, user_b, amount, lock_duration, time_b),
        // reward arithmetic stays below its saturation caps
        pos_a1.weight * pool2.acc_reward_per_weight <= u128::MAX,
        settle_spec(pos_a1.weight, pool2.acc_reward_per_weight) <= u64::MAX,
    ensures
        pos_a1.weight == pos_b1.weight,
        claimable_spec(pos_b1, pool2.acc_reward_per_weight) == 0,
        claimable_spec(pos_a1, pool2.acc_reward_per_weight) == settle_spec(
            pos_a1.weight,
            pool2.acc_reward_per_weight,
        ) - settle_spec(pos_a1.weight, pool1.acc_reward_per_weight),
        claimable_spec(pos_a1, pool2.acc_reward_per_weight) >= settle_spec(
            pos_a1.weight,
            (pool2.acc_reward_per_weight - pool1.acc_reward_per_weight) as u128,
        ),
{
    let w = pos_a1.weight as int;
    let acc1 = pool1.acc_reward_per_weight as int;
    let acc2 = pool2.acc_reward_per_weight as int;
    assert(acc2 >= acc1);

    // neither settle product saturates: the one at the larger accumulator
    // is within range by assumption, and products grow with the accumulator
    lemma_mul_inequality(acc1, acc2, w);
    assert(w * acc1 == acc1 * w && w * acc2 == acc2 * w) by (nonlinear_arith);
    assert(w * acc1 <= w * acc2);
    assert(w * acc1 >= 0 && w * acc2 >= 0 && w * (acc2 - acc1) >= 0) by (nonlinear_arith)
        requires
            w >= 0,
            0 <= acc1 <= acc2,
    ;

    // the late staker's debt baseline is their entire entitlement at the
    // post-event accumulator, so nothing from the event is owed to them
    assert(pos_b1.reward_debt == settle_spec(pos_b1.weight, pool2.acc_reward_per_weight));
    assert(settled_delta(pos_b1, pool2.acc_reward_per_weight) == 0);

    // the early staker's debt baseline predates the event
    assert(pos_a1.reward_debt == settle_spec(pos_a1.weight, pool1.acc_reward_per_weight));
    lemma_div_is_ordered(w * acc1, w * acc2, ACC_PRECISION as int);

    // floor is superadditive, so the entitlement growth across the event
    // is at least the floor share of the delta alone
    assert(w * acc2 == w * acc1 + w * (acc2 - acc1)) by (nonlinear_arith);
    lemma_div_superadditive(w * acc1, w * (acc2 - acc1), ACC_PRECISION as int);
}

} // verus!
