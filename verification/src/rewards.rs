//! The two global fund ledgers beside the staking pool: the reward pool,
//! which backs claims, and the revenue pool, which collects the platform's
//! revenue share. Both only track balances; moving the funds themselves is
//! the host's job.

use vstd::prelude::*;
use crate::errors::{RevenueError, RewardError};
use crate::token_type::TokenType;

verus! {

/// Ledger of funds available to pay out staking rewards. Its balance must
/// cover a claim in full or the claim fails.
#[derive(Clone, Copy, Debug, PartialEq, Eq, Structural)]
pub struct RewardPool {
    /// The authority that initialized the ledger.
    pub admin: u64,
    /// The asset the ledger settles in (the ledger's own address for the native kind).
    pub mint: u64,
    /// Funds available for payout across all participants.
    pub total_funds: u64,
    /// When revenue last flowed in (bookkeeping only).
    pub last_distribution: i64,
    /// Which ledger-transfer path moves these funds.
    pub token_type: TokenType,
}

/// Ledger of the platform's revenue share.
#[derive(Clone, Copy, Debug, PartialEq, Eq, Structural)]
pub struct RevenuePool {
    /// The authority that initialized the ledger.
    pub admin: u64,
    /// The asset the ledger settles in (the ledger's own address for the native kind).
    pub mint: u64,
    /// Revenue collected so far.
    pub total_funds: u64,
    /// When revenue last flowed in.
    pub last_distribution: i64,
    /// Which ledger-transfer path moves these funds.
    pub token_type: TokenType,
}

/// A freshly initialized reward ledger for `admin`.
pub open spec fn fresh_reward_pool(
    pool: RewardPool,
    admin: u64,
    mint: u64,
    pool_address: u64,
    now: i64,
    token_type: TokenType,
) -> bool {
    &&& pool.admin == admin
    &&& pool.mint == (if token_type == TokenType::SOL {
        pool_address
    } else {
        mint
    })
    &&& pool.total_funds == 0
    &&& pool.last_distribution == now
    &&& pool.token_type == token_type
}

/// A freshly initialized revenue ledger for `admin`.
pub open spec fn fresh_revenue_pool(
    pool: RevenuePool,
    admin: u64,
    mint: u64,
    pool_address: u64,
    now: i64,
    token_type: TokenType,
) -> bool {
    &&& pool.admin == admin
    &&& pool.mint == (if token_type == TokenType::SOL {
        pool_address
    } else {
        mint
    })
    &&& pool.total_funds == 0
    &&& pool.last_distribution == now
    &&& pool.token_type == token_type
}

/// Creates the global reward ledger, guarded so a funded ledger is never
/// reset.
pub fn initialize_reward_pool(
    reward_pool: &mut RewardPool,
    admin: u64,
    mint: u64,
    pool_address: u64,
    now: i64,
    token_type: TokenType,
) -> (result: Result<(), RewardError>)
    ensures
        result is Err <==> old(reward_pool).total_funds != 0,
        result is Err ==> result == Err::<(), RewardError>(RewardError::AlreadyInitialized)
            && *final(reward_pool) == *old(reward_pool),
        result is Ok ==> fresh_reward_pool(
            *final(reward_pool),
            admin,
            mint,
            pool_address,
            now,
            token_type,
        ),
{
    if reward_pool.total_funds != 0 {
        return Err(RewardError::AlreadyInitialized);
    }
    reward_pool.admin = admin;
    reward_pool.total_funds = 0;
    reward_pool.last_distribution = now;
    reward_pool.token_type = token_type;
    reward_pool.mint = if token_type == TokenType::SOL {
        pool_address
    } else {
        mint
    };
    Ok(())
}

/// Creates the global revenue ledger, guarded so a funded ledger is never
/// reset.
pub fn initialize_revenue_pool(
    revenue_pool: &mut RevenuePool,
    admin: u64,
    mint: u64,
    pool_address: u64,
    now: i64,
    token_type: TokenType,
) -> (result: Result<(), RevenueError>)
    ensures
        result is Err <==> old(revenue_pool).total_funds != 0,
        result is Err ==> result == Err::<(), RevenueError>(RevenueError::AlreadyInitialized)
            && *final(revenue_pool) == *old(revenue_pool),
        result is Ok ==> fresh_revenue_pool(
            *final(revenue_pool),
            admin,
            mint,
            pool_address,
            now,
            token_type,
        ),
{
    if revenue_pool.total_funds != 0 {
        return Err(RevenueError::AlreadyInitialized);
    }
    revenue_pool.admin = admin;
    revenue_pool.total_funds = 0;
    revenue_pool.last_distribution = now;
    revenue_pool.token_type = token_type;
    revenue_pool.mint = if token_type == TokenType::SOL {
        pool_address
    } else {
        mint
    };
    Ok(())
}

} // verus!
