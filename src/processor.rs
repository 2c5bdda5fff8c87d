use vstd::prelude::*;
use crate::error::StakeError;
use crate::rewards::{settle_spec, update_rewards};
use crate::state::{Address, StakingPoolState, UserState};

verus! {

/// A freshly created, or fully reset, pool record.
pub open spec fn fresh_pool(
    authority: Address,
    staking_token_mint: Address,
    reward_token_mint: Address,
    now: i64,
) -> StakingPoolState {
    StakingPoolState {
        admin: authority,
        staking_token_mint,
        reward_token_mint,
        total_supply: 0,
        reward_per_token_stored: 0,
        last_update_timestamp: now,
    }
}

/// Creating a pool always succeeds; resetting one needs its administrator,
/// is refused once anything is staked in it, and keeps the administrator and
/// the asset identifiers on record.
pub open spec fn initialize_spec(
    existing: Option<StakingPoolState>,
    authority: Address,
    staking_token_mint: Address,
    reward_token_mint: Address,
    now: i64,
) -> Result<StakingPoolState, StakeError> {
    match existing {
        Some(pool) => if pool.admin@ != authority@ || pool.total_supply > 0 {
            Err(StakeError::Unauthorized)
        } else {
            Ok(StakingPoolState { total_supply: 0, reward_per_token_stored: 0, last_update_timestamp: now, ..pool })
        },
        None => Ok(fresh_pool(authority, staking_token_mint, reward_token_mint, now)),
    }
}

/// A deposit of `amount` units: the records are settled at `now` first (an
/// absent participant record starts zeroed), then the amount is added to the
/// participant's balance and to the pool's total.
pub open spec fn stake_spec(
    pool: Option<StakingPoolState>,
    user: Option<UserState>,
    amount: u64,
    now: i64,
) -> Result<(StakingPoolState, UserState), StakeError> {
    if amount == 0 {
        Err(StakeError::ZeroAmount)
    } else if pool is None {
        Err(StakeError::RecordNotInitialized)
    } else {
        let u = match user {
            Some(u) => u,
            None => UserState::empty(),
        };
        match settle_spec(pool->Some_0, u, now) {
            Ok((p, u)) => if u.balance + amount > u64::MAX || p.total_supply + amount > u64::MAX {
                Err(StakeError::ArithmeticFault)
            } else {
                Ok(
                    (
                        StakingPoolState { total_supply: (p.total_supply + amount) as u64, ..p },
                        UserState { balance: (u.balance + amount) as u64, ..u },
                    ),
                )
            },
            Err(e) => Err(e),
        }
    }
}

/// A withdrawal of `amount` units by the participant who owns the record:
/// the records are settled at `now`, then the amount leaves the participant's
/// balance and the pool's total.
pub open spec fn unstake_spec(
    pool: Option<StakingPoolState>,
    user: Option<UserState>,
    amount: u64,
    now: i64,
    signer: bool,
) -> Result<(StakingPoolState, UserState), StakeError> {
    if !signer {
        Err(StakeError::Unauthorized)
    } else if amount == 0 {
        Err(StakeError::ZeroAmount)
    } else if pool is None || user is None {
        Err(StakeError::RecordNotInitialized)
    } else {
        match settle_spec(pool->Some_0, user->Some_0, now) {
            Ok((p, u)) => if amount > u.balance {
                Err(StakeError::InsufficientBalance)
            } else if amount > p.total_supply {
                Err(StakeError::ArithmeticFault)
            } else {
                Ok(
                    (
                        StakingPoolState { total_supply: (p.total_supply - amount) as u64, ..p },
                        UserState { balance: (u.balance - amount) as u64, ..u },
                    ),
                )
            },
            Err(e) => Err(e),
        }
    }
}

/// A claim by the participant who owns the record: the records are settled
/// at `now`, the whole settled reward is paid out and the participant's
/// reward drops to zero.
pub open spec fn get_rewards_spec(
    pool: Option<StakingPoolState>,
    user: Option<UserState>,
    now: i64,
    signer: bool,
) -> Result<(StakingPoolState, UserState, u64), StakeError> {
    if !signer {
        Err(StakeError::Unauthorized)
    } else if pool is None || user is None {
        Err(StakeError::RecordNotInitialized)
    } else {
        match settle_spec(pool->Some_0, user->Some_0, now) {
            Ok((p, u)) => Ok((p, UserState { rewards: 0, ..u }, u.rewards)),
            Err(e) => Err(e),
        }
    }
}

/// The operations on the pool. Each one decides on record values and returns
/// the records to store; the host stores them only after the token transfer
/// that goes with the operation has succeeded.
pub struct Processor;

impl Processor {
    /// Creates the pool record, or resets an existing one.
    pub fn initialize(
        existing: Option<StakingPoolState>,
        authority: &Address,
        staking_token_mint: &Address,
        reward_token_mint: &Address,
        now: i64,
    ) -> (r: Result<StakingPoolState, StakeError>)
        ensures
            r == initialize_spec(existing, *authority, *staking_token_mint, *reward_token_mint, now),
    {
        if let Some(pool) = existing {
            if !pool.admin.same_as(authority) || pool.total_supply > 0 {
                return Err(StakeError::Unauthorized);
            }
            let mut reset = pool;
            reset.reward_per_token_stored = 0;
            reset.last_update_timestamp = now;
            return Ok(reset);
        }
        Ok(StakingPoolState {
            admin: *authority,
            staking_token_mint: *staking_token_mint,
            reward_token_mint: *reward_token_mint,
            total_supply: 0,
            reward_per_token_stored: 0,
            last_update_timestamp: now,
        })
    }

    /// Deposits `amount` stake units at time `now`.
    pub fn stake(
        pool: Option<StakingPoolState>,
        user: Option<UserState>,
        amount: u64,
        now: i64,
    ) -> (r: Result<(StakingPoolState, UserState), StakeError>)
        ensures
            r == stake_spec(pool, user, amount, now),
    {
        if amount == 0 {
            return Err(StakeError::ZeroAmount);
        }
        let mut pool = match pool {
            Some(p) => p,
            None => return Err(StakeError::RecordNotInitialized),
        };
        let mut user = match user {
            Some(u) => u,
            None => UserState::new(),
        };
        update_rewards(&mut pool, &mut user, now)?;
        if user.balance > u64::MAX - amount || pool.total_supply > u64::MAX - amount {
            return Err(StakeError::ArithmeticFault);
        }
        user.balance = user.balance + amount;
        pool.total_supply = pool.total_supply + amount;
        Ok((pool, user))
    }

    /// Withdraws `amount` stake units at time `now`; `signer` tells whether
    /// the owner of the participant record authorised the call.
    pub fn unstake(
        pool: Option<StakingPoolState>,
        user: Option<UserState>,
        amount: u64,
        now: i64,
        signer: bool,
    ) -> (r: Result<(StakingPoolState, UserState), StakeError>)
        ensures
            r == unstake_spec(pool, user, amount, now, signer),
    {
        if !signer {
            return Err(StakeError::Unauthorized);
        }
        if amount == 0 {
            return Err(StakeError::ZeroAmount);
        }
        let (mut pool, mut user) = match (pool, user) {
            (Some(p), Some(u)) => (p, u),
            _ => return Err(StakeError::RecordNotInitialized),
        };
        update_rewards(&mut pool, &mut user, now)?;
        if amount > user.balance {
            return Err(StakeError::InsufficientBalance);
        }
        if amount > pool.total_supply {
            return Err(StakeError::ArithmeticFault);
        }
        user.balance = user.balance - amount;
        pool.total_supply = pool.total_supply - amount;
        Ok((pool, user))
    }

    /// Pays out the participant's settled reward at time `now`; the third
    /// value returned is the amount to transfer, zero when nothing is owed.
    pub fn get_rewards(
        pool: Option<StakingPoolState>,
        user: Option<UserState>,
        now: i64,
        signer: bool,
    ) -> (r: Result<(StakingPoolState, UserState, u64), StakeError>)
        ensures
            r == get_rewards_spec(pool, user, now, signer),
    {
        if !signer {
            return Err(StakeError::Unauthorized);
        }
        let (mut pool, mut user) = match (pool, user) {
            (Some(p), Some(u)) => (p, u),
            _ => return Err(StakeError::RecordNotInitialized),
        };
        update_rewards(&mut pool, &mut user, now)?;
        let paid = user.rewards;
        user.rewards = 0;
        Ok((pool, user, paid))
    }
}

} // verus!
