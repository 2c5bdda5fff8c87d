use vstd::prelude::*;
use vstd::string::StringSliceAdditionalSpecFns;
use crate::accounts::{check_address, check_escrow, check_mint, escrow_valid};
use crate::error::StakeError;
use crate::pda_helper::{
    program_address, PdaHelper, REWARDS_TOKEN_SEED, STAKING_POOL_SEED, STAKING_TOKEN_SEED,
    USER_STATE_SEED,
};
use crate::processor::{get_rewards_spec, initialize_spec, stake_spec, unstake_spec, Processor};
use crate::state::{Address, StakingPoolState, UserState};

verus! {

/// `supplied` is the address derived from `seeds` under `program_id`.
pub open spec fn derived_as(supplied: Address, seeds: Seq<Seq<u8>>, program_id: Address) -> bool {
    program_address(seeds, program_id@) matches Some((a, _)) && a == supplied@
}

/// `pool_address` is the address of the pool of these two assets.
pub open spec fn pool_address_valid(
    pool_address: Address,
    staking_token_mint: Address,
    reward_token_mint: Address,
    program_id: Address,
) -> bool {
    derived_as(
        pool_address,
        seq![staking_token_mint@, reward_token_mint@, STAKING_POOL_SEED.spec_bytes()],
        program_id,
    )
}

/// `user_address` is the record address of `user_authority` in the pool at `pool_address`.
pub open spec fn user_address_valid(
    user_address: Address,
    pool_address: Address,
    user_authority: Address,
    program_id: Address,
) -> bool {
    derived_as(user_address, seq![pool_address@, user_authority@, USER_STATE_SEED.spec_bytes()], program_id)
}

/// `escrow` holds an initialised token account of the asset `mint`, owned by
/// the authority derived from `mint` and `label`.
pub open spec fn escrow_of(escrow: Seq<u8>, mint: Address, label: Seq<u8>, program_id: Address) -> bool {
    program_address(seq![mint@, label], program_id@) matches Some((a, _)) && escrow_valid(escrow, mint@, a)
}

/// The records named by a participant's instruction are the derived ones:
/// the supplied asset is the pool's, the pool record sits at its derived
/// address, and the participant record at the participant's.
pub open spec fn participant_addresses_valid(
    program_id: Address,
    pool_address: Address,
    pool: StakingPoolState,
    user_authority: Address,
    user_address: Address,
    supplied_mint: Address,
    recorded_mint: Address,
) -> bool {
    &&& supplied_mint@ == recorded_mint@
    &&& pool_address_valid(pool_address, pool.staking_token_mint, pool.reward_token_mint, program_id)
    &&& user_address_valid(user_address, pool_address, user_authority, program_id)
}

/// Initialisation, with the pool address and both escrows checked.
pub open spec fn initialize_step_spec(
    program_id: Address,
    pool_address: Address,
    existing: Option<StakingPoolState>,
    authority: Address,
    staking_token_mint: Address,
    reward_token_mint: Address,
    staking_escrow: Seq<u8>,
    rewards_escrow: Seq<u8>,
    now: i64,
) -> Result<StakingPoolState, StakeError> {
    if !pool_address_valid(pool_address, staking_token_mint, reward_token_mint, program_id) {
        Err(StakeError::AddressMismatch)
    } else {
        match initialize_spec(existing, authority, staking_token_mint, reward_token_mint, now) {
            Ok(pool) => if escrow_of(staking_escrow, staking_token_mint, STAKING_TOKEN_SEED.spec_bytes(), program_id)
                && escrow_of(rewards_escrow, reward_token_mint, REWARDS_TOKEN_SEED.spec_bytes(), program_id) {
                Ok(pool)
            } else {
                Err(StakeError::EscrowOwnershipMismatch)
            },
            Err(e) => Err(e),
        }
    }
}

/// A stake, with the named records and the stake escrow checked first.
pub open spec fn stake_step_spec(
    program_id: Address,
    pool_address: Address,
    pool: Option<StakingPoolState>,
    user_authority: Address,
    user_address: Address,
    user: Option<UserState>,
    staking_token_mint: Address,
    staking_escrow: Seq<u8>,
    amount: u64,
    now: i64,
) -> Result<(StakingPoolState, UserState), StakeError> {
    if amount == 0 {
        Err(StakeError::ZeroAmount)
    } else if pool is None {
        Err(StakeError::RecordNotInitialized)
    } else if !participant_addresses_valid(
        program_id,
        pool_address,
        pool->Some_0,
        user_authority,
        user_address,
        staking_token_mint,
        pool->Some_0.staking_token_mint,
    ) {
        Err(StakeError::AddressMismatch)
    } else if !escrow_of(staking_escrow, staking_token_mint, STAKING_TOKEN_SEED.spec_bytes(), program_id) {
        Err(StakeError::EscrowOwnershipMismatch)
    } else {
        stake_spec(pool, user, amount, now)
    }
}

/// An unstake, with the signer, the named records and the stake escrow
/// checked first.
pub open spec fn unstake_step_spec(
    program_id: Address,
    pool_address: Address,
    pool: Option<StakingPoolState>,
    user_authority: Address,
    user_address: Address,
    user: Option<UserState>,
    staking_token_mint: Address,
    staking_escrow: Seq<u8>,
    amount: u64,
    now: i64,
    signer: bool,
) -> Result<(StakingPoolState, UserState), StakeError> {
    if !signer {
        Err(StakeError::Unauthorized)
    } else if amount == 0 {
        Err(StakeError::ZeroAmount)
    } else if pool is None {
        Err(StakeError::RecordNotInitialized)
    } else if !participant_addresses_valid(
        program_id,
        pool_address,
        pool->Some_0,
        user_authority,
        user_address,
        staking_token_mint,
        pool->Some_0.staking_token_mint,
    ) {
        Err(StakeError::AddressMismatch)
    } else if !escrow_of(staking_escrow, staking_token_mint, STAKING_TOKEN_SEED.spec_bytes(), program_id) {
        Err(StakeError::EscrowOwnershipMismatch)
    } else {
        unstake_spec(pool, user, amount, now, signer)
    }
}

/// A claim, with the signer, the named records and the reward escrow checked
/// first.
pub open spec fn get_rewards_step_spec(
    program_id: Address,
    pool_address: Address,
    pool: Option<StakingPoolState>,
    user_authority: Address,
    user_address: Address,
    user: Option<UserState>,
    reward_token_mint: Address,
    rewards_escrow: Seq<u8>,
    now: i64,
    signer: bool,
) -> Result<(StakingPoolState, UserState, u64), StakeError> {
    if !signer {
        Err(StakeError::Unauthorized)
    } else if pool is None {
        Err(StakeError::RecordNotInitialized)
    } else if !participant_addresses_valid(
        program_id,
        pool_address,
        pool->Some_0,
        user_authority,
        user_address,
        reward_token_mint,
        pool->Some_0.reward_token_mint,
    ) {
        Err(StakeError::AddressMismatch)
    } else if !escrow_of(rewards_escrow, reward_token_mint, REWARDS_TOKEN_SEED.spec_bytes(), program_id) {
        Err(StakeError::EscrowOwnershipMismatch)
    } else {
        get_rewards_spec(pool, user, now, signer)
    }
}

fn check_participant_addresses(
    program_id: &Address,
    pool_address: &Address,
    pool: &StakingPoolState,
    user_authority: &Address,
    user_address: &Address,
    supplied_mint: &Address,
    recorded_mint: &Address,
) -> (r: Result<(), StakeError>)
    ensures
        r is Ok <==> participant_addresses_valid(
            *program_id,
            *pool_address,
            *pool,
            *user_authority,
            *user_address,
            *supplied_mint,
            *recorded_mint,
        ),
        r is Err ==> r == Err::<(), StakeError>(StakeError::AddressMismatch),
{
    check_mint(supplied_mint, recorded_mint)?;
    check_address(
        pool_address,
        PdaHelper::find_staking_pool_pda(&pool.staking_token_mint, &pool.reward_token_mint, program_id),
    )?;
    check_address(user_address, PdaHelper::find_user_state_pda(pool_address, user_authority, program_id))
}

fn check_staking_escrow(program_id: &Address, mint: &Address, escrow: &[u8]) -> (r: Result<(), StakeError>)
    ensures
        r is Ok <==> escrow_of(escrow@, *mint, STAKING_TOKEN_SEED.spec_bytes(), *program_id),
        r is Err ==> r == Err::<(), StakeError>(StakeError::EscrowOwnershipMismatch),
{
    match PdaHelper::find_staking_token_pda(mint, program_id) {
        Some((authority, _)) => check_escrow(escrow, mint, &authority),
        None => Err(StakeError::EscrowOwnershipMismatch),
    }
}

fn check_rewards_escrow(program_id: &Address, mint: &Address, escrow: &[u8]) -> (r: Result<(), StakeError>)
    ensures
        r is Ok <==> escrow_of(escrow@, *mint, REWARDS_TOKEN_SEED.spec_bytes(), *program_id),
        r is Err ==> r == Err::<(), StakeError>(StakeError::EscrowOwnershipMismatch),
{
    match PdaHelper::find_rewards_token_pda(mint, program_id) {
        Some((authority, _)) => check_escrow(escrow, mint, &authority),
        None => Err(StakeError::EscrowOwnershipMismatch),
    }
}

/// Creates or resets the pool once its address and both escrows check out;
/// returns the pool record to store.
pub fn initialize_step(
    program_id: &Address,
    pool_address: &Address,
    existing: Option<StakingPoolState>,
    authority: &Address,
    staking_token_mint: &Address,
    reward_token_mint: &Address,
    staking_escrow: &[u8],
    rewards_escrow: &[u8],
    now: i64,
) -> (r: Result<StakingPoolState, StakeError>)
    ensures
        r == initialize_step_spec(
            *program_id,
            *pool_address,
            existing,
            *authority,
            *staking_token_mint,
            *reward_token_mint,
            staking_escrow@,
            rewards_escrow@,
            now,
        ),
{
    check_address(
        pool_address,
        PdaHelper::find_staking_pool_pda(staking_token_mint, reward_token_mint, program_id),
    )?;
    let pool = Processor::initialize(existing, authority, staking_token_mint, reward_token_mint, now)?;
    check_staking_escrow(program_id, staking_token_mint, staking_escrow)?;
    check_rewards_escrow(program_id, reward_token_mint, rewards_escrow)?;
    Ok(pool)
}

/// A stake of `amount` once the named records and the stake escrow check
/// out; returns the records to store.
pub fn stake_step(
    program_id: &Address,
    pool_address: &Address,
    pool: Option<StakingPoolState>,
    user_authority: &Address,
    user_address: &Address,
    user: Option<UserState>,
    staking_token_mint: &Address,
    staking_escrow: &[u8],
    amount: u64,
    now: i64,
) -> (r: Result<(StakingPoolState, UserState), StakeError>)
    ensures
        r == stake_step_spec(
            *program_id,
            *pool_address,
            pool,
            *user_authority,
            *user_address,
            user,
            *staking_token_mint,
            staking_escrow@,
            amount,
            now,
        ),
{
    if amount == 0 {
        return Err(StakeError::ZeroAmount);
    }
    let p = match pool {
        Some(p) => p,
        None => return Err(StakeError::RecordNotInitialized),
    };
    check_participant_addresses(
        program_id,
        pool_address,
        &p,
        user_authority,
        user_address,
        staking_token_mint,
        &p.staking_token_mint,
    )?;
    check_staking_escrow(program_id, staking_token_mint, staking_escrow)?;
    Processor::stake(pool, user, amount, now)
}

/// An unstake of `amount` once the signer, the named records and the stake
/// escrow check out; returns the records to store.
pub fn unstake_step(
    program_id: &Address,
    pool_address: &Address,
    pool: Option<StakingPoolState>,
    user_authority: &Address,
    user_address: &Address,
    user: Option<UserState>,
    staking_token_mint: &Address,
    staking_escrow: &[u8],
    amount: u64,
    now: i64,
    signer: bool,
) -> (r: Result<(StakingPoolState, UserState), StakeError>)
    ensures
        r == unstake_step_spec(
            *program_id,
            *pool_address,
            pool,
            *user_authority,
            *user_address,
            user,
            *staking_token_mint,
            staking_escrow@,
            amount,
            now,
            signer,
        ),
{
    if !signer {
        return Err(StakeError::Unauthorized);
    }
    if amount == 0 {
        return Err(StakeError::ZeroAmount);
    }
    let p = match pool {
        Some(p) => p,
        None => return Err(StakeError::RecordNotInitialized),
    };
    check_participant_addresses(
        program_id,
        pool_address,
        &p,
        user_authority,
        user_address,
        staking_token_mint,
        &p.staking_token_mint,
    )?;
    check_staking_escrow(program_id, staking_token_mint, staking_escrow)?;
    Processor::unstake(pool, user, amount, now, signer)
}

/// A claim once the signer, the named records and the reward escrow check
/// out; returns the records to store and the amount to pay.
pub fn get_rewards_step(
    program_id: &Address,
    pool_address: &Address,
    pool: Option<StakingPoolState>,
    user_authority: &Address,
    user_address: &Address,
    user: Option<UserState>,
    reward_token_mint: &Address,
    rewards_escrow: &[u8],
    now: i64,
    signer: bool,
) -> (r: Result<(StakingPoolState, UserState, u64), StakeError>)
    ensures
        r == get_rewards_step_spec(
            *program_id,
            *pool_address,
            pool,
            *user_authority,
            *user_address,
            user,
            *reward_token_mint,
            rewards_escrow@,
            now,
            signer,
        ),
{
    if !signer {
        return Err(StakeError::Unauthorized);
    }
    let p = match pool {
        Some(p) => p,
        None => return Err(StakeError::RecordNotInitialized),
    };
    check_participant_addresses(
        program_id,
        pool_address,
        &p,
        user_authority,
        user_address,
        reward_token_mint,
        &p.reward_token_mint,
    )?;
    check_rewards_escrow(program_id, reward_token_mint, rewards_escrow)?;
    Processor::get_rewards(pool, user, now, signer)
}

} // verus!
