use vstd::prelude::*;
use crate::error::StakeError;
use crate::state::{StakingPoolState, UserState};

verus! {

/// Reward units emitted per second, per staked unit.
pub const REWARD_RATE: u64 = 100;

/// Scale of the reward-per-unit accumulator.
pub const PRECISION: u64 = 10_000_000_000;

/// The exact accumulator value at time `now`, before any range check.
pub open spec fn reward_per_token_value(pool: StakingPoolState, now: i64) -> int {
    pool.reward_per_token_stored + (REWARD_RATE * (now - pool.last_update_timestamp) * PRECISION)
        / (pool.total_supply as int)
}

/// The accumulator at time `now`: unchanged while nothing is staked; a fault
/// if time went backwards or the value leaves `u64`.
pub open spec fn reward_per_token_spec(pool: StakingPoolState, now: i64) -> Result<u64, StakeError> {
    if pool.total_supply == 0 {
        Ok(pool.reward_per_token_stored)
    } else if now < pool.last_update_timestamp {
        Err(StakeError::ArithmeticFault)
    } else if reward_per_token_value(pool, now) > u64::MAX {
        Err(StakeError::ArithmeticFault)
    } else {
        Ok(reward_per_token_value(pool, now) as u64)
    }
}

/// The exact reward of `user` once the accumulator has reached `rpu`.
pub open spec fn earned_value(user: UserState, rpu: u64) -> int {
    user.balance * (rpu - user.reward_per_token_paid) / (PRECISION as int) + user.rewards
}

/// The reward of `user` once the accumulator has reached `rpu`, or a fault if
/// the accumulator is behind the user's snapshot or the value leaves `u64`.
pub open spec fn earned_at(user: UserState, rpu: u64) -> Result<u64, StakeError> {
    if rpu < user.reward_per_token_paid {
        Err(StakeError::ArithmeticFault)
    } else if earned_value(user, rpu) > u64::MAX {
        Err(StakeError::ArithmeticFault)
    } else {
        Ok(earned_value(user, rpu) as u64)
    }
}

pub open spec fn earned_spec(pool: StakingPoolState, user: UserState, now: i64) -> Result<u64, StakeError> {
    match reward_per_token_spec(pool, now) {
        Ok(rpu) => earned_at(user, rpu),
        Err(e) => Err(e),
    }
}

/// Both records brought up to date at time `now`.
pub open spec fn settle_spec(pool: StakingPoolState, user: UserState, now: i64) -> Result<
    (StakingPoolState, UserState),
    StakeError,
> {
    match reward_per_token_spec(pool, now) {
        Ok(rpu) => match earned_at(user, rpu) {
            Ok(reward) => Ok(
                (
                    StakingPoolState {
                        reward_per_token_stored: rpu,
                        last_update_timestamp: now,
                        ..pool
                    },
                    UserState { reward_per_token_paid: rpu, rewards: reward, ..user },
                ),
            ),
            Err(e) => Err(e),
        },
        Err(e) => Err(e),
    }
}

/// The reward-per-unit accumulator of `pool` at time `now`.
pub fn reward_per_token(pool: &StakingPoolState, now: i64) -> (r: Result<u64, StakeError>)
    ensures
        r == reward_per_token_spec(*pool, now),
{
    let total_supply = pool.total_supply;
    let stored = pool.reward_per_token_stored;
    if total_supply == 0 {
        return Ok(stored);
    }
    let last = pool.last_update_timestamp;
    if now < last {
        return Err(StakeError::ArithmeticFault);
    }
    let elapsed: u128 = (now as i128 - last as i128) as u128;
    assert(elapsed < 0x1_0000_0000_0000_0000);
    assert(REWARD_RATE as u128 * elapsed <= 0x100_0000_0000_0000_0000 && REWARD_RATE as u128 * elapsed
        * PRECISION as u128 <= u128::MAX) by (nonlinear_arith)
        requires
            elapsed < 0x1_0000_0000_0000_0000,
            REWARD_RATE == 100,
            PRECISION == 10_000_000_000u64,
    ;
    let emitted: u128 = REWARD_RATE as u128 * elapsed * PRECISION as u128;
    let value: u128 = stored as u128 + emitted / total_supply as u128;
    if value > u64::MAX as u128 {
        Err(StakeError::ArithmeticFault)
    } else {
        Ok(value as u64)
    }
}

/// The reward of `user` once the accumulator has reached `rpu`.
fn earned_with(user: &UserState, rpu: u64) -> (r: Result<u64, StakeError>)
    ensures
        r == earned_at(*user, rpu),
{
    if rpu < user.reward_per_token_paid {
        return Err(StakeError::ArithmeticFault);
    }
    let delta: u128 = (rpu - user.reward_per_token_paid) as u128;
    let balance: u128 = user.balance as u128;
    assert(balance * delta <= u128::MAX) by (nonlinear_arith)
        requires
            balance <= u64::MAX,
            delta <= u64::MAX,
    ;
    let value: u128 = balance * delta / PRECISION as u128 + user.rewards as u128;
    if value > u64::MAX as u128 {
        Err(StakeError::ArithmeticFault)
    } else {
        Ok(value as u64)
    }
}

/// The reward owed to `user` at time `now`: what it had settled, plus its
/// balance times the growth of the accumulator since its snapshot.
pub fn earned(pool: &StakingPoolState, user: &UserState, now: i64) -> (r: Result<u64, StakeError>)
    ensures
        r == earned_spec(*pool, *user, now),
{
    let rpu = reward_per_token(pool, now)?;
    earned_with(user, rpu)
}

/// Brings `pool` and `user` up to date at time `now`: the accumulator is
/// advanced and stamped with `now`, and the user's reward is settled against
/// it. On a fault neither record changes.
pub fn update_rewards(pool: &mut StakingPoolState, user: &mut UserState, now: i64) -> (r: Result<(), StakeError>)
    ensures
        match settle_spec(*old(pool), *old(user), now) {
            Ok((p, u)) => r is Ok && *final(pool) == p && *final(user) == u,
            Err(e) => r == Err::<(), StakeError>(e) && *final(pool) == *old(pool) && *final(user) == *old(user),
        },
{
    let rpu = reward_per_token(pool, now)?;
    let mut settled = *pool;
    settled.reward_per_token_stored = rpu;
    settled.last_update_timestamp = now;
    let reward = earned(&settled, user, now)?;
    *pool = settled;
    user.rewards = reward;
    user.reward_per_token_paid = rpu;
    Ok(())
}

} // verus!
