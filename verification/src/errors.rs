//! Error taxonomy. Every operation surfaces its failure synchronously and
//! leaves all state untouched; there is no partial stake, claim or split.

use vstd::prelude::*;

verus! {

/// Failures of tournament bookkeeping and revenue distribution.
#[derive(Clone, Copy, Debug, PartialEq, Eq, Structural)]
pub enum TournamentError {
    InsufficientFunds,
    TournamentFull,
    TournamentEnded,
    TournamentNotActive,
    AlreadyRegistered,
    InvalidEntryFee,
    InvalidMaxParticipants,
    InvalidEndTime,
    Unauthorized,
    InvalidWinnerData,
    InvalidWinnerPercentages,
    InvalidPercentages,
    InvalidTournamentId,
    MathOverflow,
    AlreadyDistributed,
    InvalidTokenProgram,
    InvalidEscrowAccount,
}

/// Failures of stake, unstake, accrue and claim.
#[derive(Clone, Copy, Debug, PartialEq, Eq, Structural)]
pub enum StakingError {
    AlreadyInitialized,
    InsufficientStakedBalance,
    Unauthorized,
    MathOverflow,
    StakeLockActive,
    InvalidLockDuration,
    InvalidTokenProgram,
    InvalidEscrowAccount,
    InsufficientBalance,
}

/// Failures of revenue-pool initialization.
#[derive(Clone, Copy, Debug, PartialEq, Eq, Structural)]
pub enum RevenueError {
    AlreadyInitialized,
    Unauthorized,
    MathOverflow,
    InvalidTokenProgram,
    InvalidEscrowAccount,
}

/// Failures of reward-pool initialization.
#[derive(Clone, Copy, Debug, PartialEq, Eq, Structural)]
pub enum RewardError {
    AlreadyInitialized,
    Unauthorized,
    MathOverflow,
    InvalidTokenProgram,
    InvalidEscrowAccount,
}

} // verus!
