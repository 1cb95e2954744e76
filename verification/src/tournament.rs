//! Tournament bookkeeping: pools collecting entry fees, per-user
//! registration records, and the prize pool paying the top three places.
//!
//! Tournaments are a revenue source for the reward core: once a tournament
//! ends, its collected fees are split by percentage (see the revenue
//! module) and the staking bucket feeds the reward accumulator.

use vstd::prelude::*;
use crate::errors::TournamentError;
use crate::math::{pct_amount, pct_amount_spec};
use crate::token_type::TokenType;

verus! {

/// Fixed length of a stored tournament identifier, in bytes.
pub const TOURNAMENT_ID_LEN: usize = 32;

/// Upper bound on a tournament's participant capacity.
pub const MAX_TOURNAMENT_PARTICIPANTS: u16 = 1000;

/// Longest allowed tournament duration, in days.
pub const MAX_TOURNAMENT_DURATION_DAYS: i64 = 90;

/// Longest allowed tournament duration, in seconds.
pub const MAX_TOURNAMENT_DURATION_SECONDS: i64 = 90 * 24 * 60 * 60;

/// First place's share of the prize pool, in percent.
pub const FIRST_PLACE_PCT: u8 = 50;

/// Second place's share of the prize pool, in percent.
pub const SECOND_PLACE_PCT: u8 = 30;

/// Third place's share of the prize pool, in percent.
pub const THIRD_PLACE_PCT: u8 = 20;

/// One tournament's fee-collection state.
#[derive(Clone, Debug, PartialEq, Eq)]
pub struct TournamentPool {
    /// The creator, the one authority allowed to distribute its funds.
    pub admin: u64,
    /// The asset entries are paid in (the pool's own address for the native kind).
    pub mint: u64,
    /// The identifier, padded with zero bytes to `TOURNAMENT_ID_LEN`.
    pub tournament_id: Vec<u8>,
    /// What one registration costs.
    pub entry_fee: u64,
    /// Entry fees collected and not yet distributed.
    pub total_funds: u64,
    /// How many participants have registered.
    pub participant_count: u16,
    /// Capacity; registration fails once reached.
    pub max_participants: u16,
    /// When registration closes and distribution may begin.
    pub end_time: i64,
    /// False once the tournament's revenue has been distributed.
    pub is_active: bool,
    /// Which ledger-transfer path moves this pool's funds.
    pub token_type: TokenType,
}

/// One participant's registration in one tournament.
#[derive(Clone, Copy, Debug, PartialEq, Eq, Structural)]
pub struct RegistrationRecord {
    /// The registered participant.
    pub user: u64,
    /// The tournament pool the registration belongs to.
    pub tournament_pool: u64,
    /// Set once the record exists; a second registration is refused.
    pub is_initialized: bool,
    /// When the participant registered.
    pub registration_time: i64,
}

/// The prize escrow of one tournament, paid out 50/30/20 to the top three.
#[derive(Clone, Debug, PartialEq, Eq)]
pub struct PrizePool {
    /// The tournament creator.
    pub admin: u64,
    /// The tournament pool this prize pool belongs to.
    pub tournament_pool: u64,
    /// The asset prizes are paid in (the pool's own address for the native kind).
    pub mint: u64,
    /// The tournament identifier, padded like `TournamentPool::tournament_id`.
    pub tournament_id: Vec<u8>,
    /// Prize funds received from revenue distribution.
    pub total_funds: u64,
    /// Set once prizes have been paid; a second distribution is refused.
    pub distributed: bool,
    /// Which ledger-transfer path moves this pool's funds.
    pub token_type: TokenType,
}

/// The three winners' payouts of one prize distribution; the host transfers
/// each to the matching winner.
#[derive(Clone, Copy, Debug, PartialEq, Eq, Structural)]
pub struct PrizeDistribution {
    pub first_place_amount: u64,
    pub second_place_amount: u64,
    pub third_place_amount: u64,
}

/// An identifier brought to the fixed stored length: its bytes, then zero
/// padding.
pub open spec fn padded_id(id: Seq<u8>) -> Seq<u8> {
    Seq::new(TOURNAMENT_ID_LEN as nat, |i: int| if i < id.len() {
        id[i]
    } else {
        0u8
    })
}

/// Structural soundness of a tournament pool: stored identifier at its
/// fixed length, participant count within capacity, capacity within the
/// protocol limit.
pub open spec fn tournament_pool_wf(pool: TournamentPool) -> bool {
    &&& pool.tournament_id@.len() == TOURNAMENT_ID_LEN
    &&& pool.participant_count <= pool.max_participants
    &&& pool.max_participants <= MAX_TOURNAMENT_PARTICIPANTS
}

/// Structural soundness of a prize pool.
pub open spec fn prize_pool_wf(pool: PrizePool) -> bool {
    pool.tournament_id@.len() == TOURNAMENT_ID_LEN
}

/// A freshly created tournament pool.
pub open spec fn fresh_tournament_pool(
    pool: TournamentPool,
    creator: u64,
    mint: u64,
    pool_address: u64,
    id: Seq<u8>,
    entry_fee: u64,
    max_participants: u16,
    end_time: i64,
    token_type: TokenType,
) -> bool {
    &&& pool.admin == creator
    &&& pool.mint == (if token_type == TokenType::SOL {
        pool_address
    } else {
        mint
    })
    &&& pool.tournament_id@ == padded_id(id)
    &&& pool.entry_fee == entry_fee
    &&& pool.total_funds == 0
    &&& pool.participant_count == 0
    &&& pool.max_participants == max_participants
    &&& pool.end_time == end_time
    &&& pool.is_active
    &&& pool.token_type == token_type
}

/// How a successful registration rewrites the tournament pool and the
/// record: the entry fee joins the pot, the count grows by one, and the
/// record binds `user` to the pool.
pub open spec fn registered_ok(
    pool0: TournamentPool,
    pool1: TournamentPool,
    reg: RegistrationRecord,
    user: u64,
    tournament_pool_address: u64,
    now: i64,
) -> bool {
    &&& pool1.admin == pool0.admin
    &&& pool1.mint == pool0.mint
    &&& pool1.tournament_id@ == pool0.tournament_id@
    &&& pool1.entry_fee == pool0.entry_fee
    &&& pool1.total_funds == pool0.total_funds + pool0.entry_fee
    &&& pool1.participant_count == pool0.participant_count + 1
    &&& pool1.max_participants == pool0.max_participants
    &&& pool1.end_time == pool0.end_time
    &&& pool1.is_active == pool0.is_active
    &&& pool1.token_type == pool0.token_type
    &&& reg.user == user
    &&& reg.tournament_pool == tournament_pool_address
    &&& reg.is_initialized
    &&& reg.registration_time == now
}

/// A freshly initialized prize pool for `tournament_pool`.
pub open spec fn fresh_prize_pool(
    pool: PrizePool,
    tournament_pool: TournamentPool,
    creator: u64,
    mint: u64,
    prize_pool_address: u64,
    tournament_pool_address: u64,
) -> bool {
    &&& pool.admin == creator
    &&& pool.tournament_pool == tournament_pool_address
    &&& pool.mint == (if tournament_pool.token_type == TokenType::SOL {
        prize_pool_address
    } else {
        mint
    })
    &&& pool.tournament_id@ == tournament_pool.tournament_id@
    &&& pool.total_funds == 0
    &&& !pool.distributed
    &&& pool.token_type == tournament_pool.token_type
}

fn copy_bytes(src: &Vec<u8>) -> (r: Vec<u8>)
    ensures
        r@ == src@,
{
    let mut out: Vec<u8> = Vec::new();
    let mut i: usize = 0;
    while i < src.len()
        invariant
            i <= src@.len(),
            out@ == src@.subrange(0, i as int),
        decreases src@.len() - i,
    {
        out.push(src[i]);
        assert(out@ =~= src@.subrange(0, i + 1));
        i = i + 1;
    }
    assert(out@ =~= src@);
    out
}

fn bytes_eq(a: &Vec<u8>, b: &Vec<u8>) -> (r: bool)
    ensures
        r == (a@ == b@),
{
    if a.len() != b.len() {
        assert(a@ !~= b@);
        return false;
    }
    let mut i: usize = 0;
    while i < a.len()
        invariant
            i <= a@.len(),
            a@.len() == b@.len(),
            forall|j: int| 0 <= j < i ==> a@[j] == b@[j],
        decreases a@.len() - i,
    {
        if a[i] != b[i] {
            return false;
        }
        i = i + 1;
    }
    assert(a@ =~= b@);
    true
}

/// Brings an identifier of at most `TOURNAMENT_ID_LEN` bytes to the fixed
/// stored length by zero padding.
pub fn pad_tournament_id(id: &Vec<u8>) -> (r: Vec<u8>)
    requires
        id@.len() <= TOURNAMENT_ID_LEN,
    ensures
        r@ == padded_id(id@),
{
    let mut out = copy_bytes(id);
    while out.len() < TOURNAMENT_ID_LEN
        invariant
            id@.len() <= out@.len() <= TOURNAMENT_ID_LEN,
            out@.subrange(0, id@.len() as int) == id@,
            forall|j: int| id@.len() <= j < out@.len() ==> out@[j] == 0u8,
        decreases TOURNAMENT_ID_LEN - out@.len(),
    {
        out.push(0u8);
        assert(out@.subrange(0, id@.len() as int) =~= id@);
    }
    assert(out@ =~= padded_id(id@));
    out
}

/// Creates a tournament pool after validating the fee, the capacity, the
/// schedule and the identifier length. Nothing is collected yet; the pot
/// starts empty and active.
pub fn create_tournament_pool(
    tournament_pool: &mut TournamentPool,
    creator: u64,
    mint: u64,
    pool_address: u64,
    tournament_id: &Vec<u8>,
    entry_fee: u64,
    max_participants: u16,
    end_time: i64,
    now: i64,
    token_type: TokenType,
) -> (result: Result<(), TournamentError>)
    requires
        now + MAX_TOURNAMENT_DURATION_SECONDS <= i64::MAX,
    ensures
        result is Err ==> *final(tournament_pool) == *old(tournament_pool),
        result == Err::<(), TournamentError>(TournamentError::InvalidEntryFee)
            <==> entry_fee == 0,
        result == Err::<(), TournamentError>(TournamentError::InvalidMaxParticipants)
            <==> entry_fee > 0
                && !(0 < max_participants <= MAX_TOURNAMENT_PARTICIPANTS),
        result == Err::<(), TournamentError>(TournamentError::InvalidEndTime)
            <==> entry_fee > 0 && 0 < max_participants <= MAX_TOURNAMENT_PARTICIPANTS
                && !(now < end_time < now + MAX_TOURNAMENT_DURATION_SECONDS),
        result == Err::<(), TournamentError>(TournamentError::InvalidTournamentId)
            <==> entry_fee > 0 && 0 < max_participants <= MAX_TOURNAMENT_PARTICIPANTS
                && now < end_time < now + MAX_TOURNAMENT_DURATION_SECONDS
                && tournament_id@.len() > TOURNAMENT_ID_LEN,
        result is Ok <==> entry_fee > 0 && 0 < max_participants <= MAX_TOURNAMENT_PARTICIPANTS
            && now < end_time < now + MAX_TOURNAMENT_DURATION_SECONDS
            && tournament_id@.len() <= TOURNAMENT_ID_LEN,
        result is Ok ==> fresh_tournament_pool(
            *final(tournament_pool),
            creator,
            mint,
            pool_address,
            tournament_id@,
            entry_fee,
            max_participants,
            end_time,
            token_type,
        ) && tournament_pool_wf(*final(tournament_pool)),
{
    if entry_fee == 0 {
        return Err(TournamentError::InvalidEntryFee);
    }
    if max_participants == 0 || max_participants > MAX_TOURNAMENT_PARTICIPANTS {
        return Err(TournamentError::InvalidMaxParticipants);
    }
    if end_time <= now {
        return Err(TournamentError::InvalidEndTime);
    }
    if end_time >= now + MAX_TOURNAMENT_DURATION_SECONDS {
        return Err(TournamentError::InvalidEndTime);
    }
    if tournament_id.len() > TOURNAMENT_ID_LEN {
        return Err(TournamentError::InvalidTournamentId);
    }
    tournament_pool.admin = creator;
    tournament_pool.tournament_id = pad_tournament_id(tournament_id);
    tournament_pool.entry_fee = entry_fee;
    tournament_pool.total_funds = 0;
    tournament_pool.participant_count = 0;
    tournament_pool.max_participants = max_participants;
    tournament_pool.end_time = end_time;
    tournament_pool.is_active = true;
    tournament_pool.token_type = token_type;
    tournament_pool.mint = if token_type == TokenType::SOL {
        pool_address
    } else {
        mint
    };
    Ok(())
}

/// Registers `user` for a tournament. On success the host must have
/// collected the entry fee into the pool's custody; the pot and the
/// participant count grow together, atomically.
pub fn register_for_tournament(
    tournament_pool: &mut TournamentPool,
    registration_account: &mut RegistrationRecord,
    user: u64,
    tournament_pool_address: u64,
    now: i64,
) -> (result: Result<(), TournamentError>)
    ensures
        result is Err ==> *final(tournament_pool) == *old(tournament_pool)
            && *final(registration_account) == *old(registration_account),
        result == Err::<(), TournamentError>(TournamentError::AlreadyRegistered)
            <==> old(registration_account).is_initialized,
        result == Err::<(), TournamentError>(TournamentError::TournamentNotActive)
            <==> !old(registration_account).is_initialized && !old(tournament_pool).is_active,
        result == Err::<(), TournamentError>(TournamentError::TournamentEnded)
            <==> !old(registration_account).is_initialized && old(tournament_pool).is_active
                && now >= old(tournament_pool).end_time,
        result == Err::<(), TournamentError>(TournamentError::TournamentFull)
            <==> !old(registration_account).is_initialized && old(tournament_pool).is_active
                && now < old(tournament_pool).end_time
                && old(tournament_pool).participant_count
                    >= old(tournament_pool).max_participants,
        result == Err::<(), TournamentError>(TournamentError::MathOverflow)
            <==> !old(registration_account).is_initialized && old(tournament_pool).is_active
                && now < old(tournament_pool).end_time
                && old(tournament_pool).participant_count < old(tournament_pool).max_participants
                && old(tournament_pool).total_funds + old(tournament_pool).entry_fee > u64::MAX,
        result is Ok <==> !old(registration_account).is_initialized
            && old(tournament_pool).is_active
            && now < old(tournament_pool).end_time
            && old(tournament_pool).participant_count < old(tournament_pool).max_participants
            && old(tournament_pool).total_funds + old(tournament_pool).entry_fee <= u64::MAX,
        result is Ok ==> registered_ok(
            *old(tournament_pool),
            *final(tournament_pool),
            *final(registration_account),
            user,
            tournament_pool_address,
            now,
        ),
        result is Ok && tournament_pool_wf(*old(tournament_pool))
            ==> tournament_pool_wf(*final(tournament_pool)),
{
    if registration_account.is_initialized {
        return Err(TournamentError::AlreadyRegistered);
    }
    if !tournament_pool.is_active {
        return Err(TournamentError::TournamentNotActive);
    }
    if now >= tournament_pool.end_time {
        return Err(TournamentError::TournamentEnded);
    }
    if tournament_pool.participant_count >= tournament_pool.max_participants {
        return Err(TournamentError::TournamentFull);
    }
    let new_funds = match tournament_pool.total_funds.checked_add(tournament_pool.entry_fee) {
        Some(v) => v,
        None => {
            return Err(TournamentError::MathOverflow);
        },
    };
    tournament_pool.total_funds = new_funds;
    tournament_pool.participant_count = tournament_pool.participant_count + 1;
    registration_account.user = user;
    registration_account.tournament_pool = tournament_pool_address;
    registration_account.is_initialized = true;
    registration_account.registration_time = now;
    Ok(())
}

/// Creates the prize pool of a tournament. Only the tournament's creator
/// may do so; the prize pool starts empty and undistributed, inheriting the
/// tournament's identifier and token kind.
pub fn initialize_prize_pool(
    prize_pool: &mut PrizePool,
    tournament_pool: &TournamentPool,
    creator: u64,
    mint: u64,
    prize_pool_address: u64,
    tournament_pool_address: u64,
) -> (result: Result<(), TournamentError>)
    ensures
        result is Err <==> tournament_pool.admin != creator,
        result is Err ==> result == Err::<(), TournamentError>(TournamentError::Unauthorized)
            && *final(prize_pool) == *old(prize_pool),
        result is Ok ==> fresh_prize_pool(
            *final(prize_pool),
            *tournament_pool,
            creator,
            mint,
            prize_pool_address,
            tournament_pool_address,
        ),
{
    if tournament_pool.admin != creator {
        return Err(TournamentError::Unauthorized);
    }
    prize_pool.admin = creator;
    prize_pool.tournament_pool = tournament_pool_address;
    prize_pool.tournament_id = copy_bytes(&tournament_pool.tournament_id);
    prize_pool.total_funds = 0;
    prize_pool.distributed = false;
    prize_pool.token_type = tournament_pool.token_type;
    prize_pool.mint = if tournament_pool.token_type == TokenType::SOL {
        prize_pool_address
    } else {
        mint
    };
    Ok(())
}

/// Pays a tournament's prize pool out 50/30/20 to the top three places.
/// Only the creator may distribute, only once, only against the matching
/// identifier, and only while funds are present. On success the host must
/// transfer each returned amount to its winner; the pool is then emptied
/// and marked distributed.
pub fn distribute_tournament_prizes(
    prize_pool: &mut PrizePool,
    creator: u64,
    tournament_id: &Vec<u8>,
) -> (result: Result<PrizeDistribution, TournamentError>)
    ensures
        result is Err ==> *final(prize_pool) == *old(prize_pool),
        result == Err::<PrizeDistribution, TournamentError>(TournamentError::InvalidTournamentId)
            <==> old(prize_pool).admin == creator && tournament_id@.len() > TOURNAMENT_ID_LEN,
        result == Err::<PrizeDistribution, TournamentError>(TournamentError::Unauthorized)
            <==> old(prize_pool).admin != creator
                || (tournament_id@.len() <= TOURNAMENT_ID_LEN
                    && old(prize_pool).tournament_id@ != padded_id(tournament_id@)),
        result == Err::<PrizeDistribution, TournamentError>(TournamentError::AlreadyDistributed)
            <==> old(prize_pool).admin == creator && tournament_id@.len() <= TOURNAMENT_ID_LEN
                && old(prize_pool).tournament_id@ == padded_id(tournament_id@)
                && old(prize_pool).distributed,
        result == Err::<PrizeDistribution, TournamentError>(TournamentError::InsufficientFunds)
            <==> old(prize_pool).admin == creator && tournament_id@.len() <= TOURNAMENT_ID_LEN
                && old(prize_pool).tournament_id@ == padded_id(tournament_id@)
                && !old(prize_pool).distributed && old(prize_pool).total_funds == 0,
        result is Ok <==> old(prize_pool).admin == creator
            && tournament_id@.len() <= TOURNAMENT_ID_LEN
            && old(prize_pool).tournament_id@ == padded_id(tournament_id@)
            && !old(prize_pool).distributed && old(prize_pool).total_funds > 0,
        result matches Ok(d) ==> {
            &&& d.first_place_amount == pct_amount_spec(old(prize_pool).total_funds, FIRST_PLACE_PCT)
            &&& d.second_place_amount == pct_amount_spec(
                old(prize_pool).total_funds,
                SECOND_PLACE_PCT,
            )
            &&& d.third_place_amount == pct_amount_spec(old(prize_pool).total_funds, THIRD_PLACE_PCT)
            &&& final(prize_pool).admin == old(prize_pool).admin
            &&& final(prize_pool).tournament_pool == old(prize_pool).tournament_pool
            &&& final(prize_pool).mint == old(prize_pool).mint
            &&& final(prize_pool).tournament_id@ == old(prize_pool).tournament_id@
            &&& final(prize_pool).total_funds == 0
            &&& final(prize_pool).distributed
            &&& final(prize_pool).token_type == old(prize_pool).token_type
        },
{
    if prize_pool.admin != creator {
        return Err(TournamentError::Unauthorized);
    }
    if tournament_id.len() > TOURNAMENT_ID_LEN {
        return Err(TournamentError::InvalidTournamentId);
    }
    let padded = pad_tournament_id(tournament_id);
    if !bytes_eq(&prize_pool.tournament_id, &padded) {
        return Err(TournamentError::Unauthorized);
    }
    if prize_pool.distributed {
        return Err(TournamentError::AlreadyDistributed);
    }
    if prize_pool.total_funds == 0 {
        return Err(TournamentError::InsufficientFunds);
    }
    let total = prize_pool.total_funds;
    let first_place_amount = pct_amount(total, FIRST_PLACE_PCT);
    let second_place_amount = pct_amount(total, SECOND_PLACE_PCT);
    let third_place_amount = pct_amount(total, THIRD_PLACE_PCT);
    prize_pool.distributed = true;
    prize_pool.total_funds = 0;
    Ok(PrizeDistribution { first_place_amount, second_place_amount, third_place_amount })
}

} // verus!
