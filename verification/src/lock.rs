//! Lock-duration commitments and their weight multipliers.
//!
//! A staking participant commits funds for one of four recognized durations;
//! the commitment maps deterministically to a multiplier in basis points
//! that scales the stake into reward-sharing weight.

use vstd::prelude::*;
use crate::errors::StakingError;
use crate::math::BPS_DENOMINATOR;

verus! {

/// The shortest recognized lock duration, in seconds.
pub const LOCK_ONE_UNIT: i64 = 120;

/// Three units of lock duration, in seconds.
pub const LOCK_THREE_UNITS: i64 = 300;

/// Six units of lock duration, in seconds.
pub const LOCK_SIX_UNITS: i64 = 600;

/// Twelve units of lock duration, in seconds.
pub const LOCK_TWELVE_UNITS: i64 = 1200;

/// 1.0x in basis points.
pub const MULTIPLIER_1_BPS: u64 = 10_000;

/// 1.2x in basis points.
pub const MULTIPLIER_3_BPS: u64 = 12_000;

/// 1.5x in basis points.
pub const MULTIPLIER_6_BPS: u64 = 15_000;

/// 2.0x in basis points.
pub const MULTIPLIER_12_BPS: u64 = 20_000;

/// Whether `lock_duration` is one of the four recognized commitments.
pub open spec fn valid_lock_duration(lock_duration: i64) -> bool {
    ||| lock_duration == LOCK_ONE_UNIT
    ||| lock_duration == LOCK_THREE_UNITS
    ||| lock_duration == LOCK_SIX_UNITS
    ||| lock_duration == LOCK_TWELVE_UNITS
}

/// The multiplier table. An unrecognized duration falls back to 1.0x rather
/// than failing; callers validating input must reject it before this point.
pub open spec fn lock_multiplier_bps_spec(lock_duration: i64) -> u64 {
    if lock_duration == LOCK_ONE_UNIT {
        MULTIPLIER_1_BPS
    } else if lock_duration == LOCK_THREE_UNITS {
        MULTIPLIER_3_BPS
    } else if lock_duration == LOCK_SIX_UNITS {
        MULTIPLIER_6_BPS
    } else if lock_duration == LOCK_TWELVE_UNITS {
        MULTIPLIER_12_BPS
    } else {
        MULTIPLIER_1_BPS
    }
}

/// Weight minted by staking `amount` under `lock_duration`:
/// `floor(amount * multiplier_bps / 10_000)`.
pub open spec fn stake_weight_spec(amount: u64, lock_duration: i64) -> u128 {
    ((amount * lock_multiplier_bps_spec(lock_duration)) / (BPS_DENOMINATOR as int)) as u128
}

/// Maps a lock duration to its weight multiplier in basis points, with the
/// lenient 1.0x fallback for unrecognized durations.
pub fn lock_multiplier_bps(lock_duration: i64) -> (r: u64)
    ensures
        r == lock_multiplier_bps_spec(lock_duration),
{
    if lock_duration == LOCK_ONE_UNIT {
        MULTIPLIER_1_BPS
    } else if lock_duration == LOCK_THREE_UNITS {
        MULTIPLIER_3_BPS
    } else if lock_duration == LOCK_SIX_UNITS {
        MULTIPLIER_6_BPS
    } else if lock_duration == LOCK_TWELVE_UNITS {
        MULTIPLIER_12_BPS
    } else {
        MULTIPLIER_1_BPS
    }
}

/// Rejects every duration outside the four recognized commitments.
pub fn validate_lock_duration(lock_duration: i64) -> (r: Result<(), StakingError>)
    ensures
        r is Ok <==> valid_lock_duration(lock_duration),
        r is Err ==> r == Err::<(), StakingError>(StakingError::InvalidLockDuration),
{
    if lock_duration == LOCK_ONE_UNIT || lock_duration == LOCK_THREE_UNITS
        || lock_duration == LOCK_SIX_UNITS || lock_duration == LOCK_TWELVE_UNITS {
        Ok(())
    } else {
        Err(StakingError::InvalidLockDuration)
    }
}

/// Computes the weight minted by staking `amount` under `lock_duration`.
pub fn stake_weight(amount: u64, lock_duration: i64) -> (r: u128)
    ensures
        r == stake_weight_spec(amount, lock_duration),
{
    let m = lock_multiplier_bps(lock_duration);
    proof {
        assert(amount * m <= u64::MAX * (MULTIPLIER_12_BPS as int)) by (nonlinear_arith)
            requires
                amount <= u64::MAX,
                m <= MULTIPLIER_12_BPS,
        ;
    }
    let prod = (amount as u128) * (m as u128);
    prod / (BPS_DENOMINATOR as u128)
}

} // verus!
