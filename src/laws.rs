use vstd::prelude::*;
use crate::error::StakeError;
use crate::processor::{get_rewards_spec, initialize_spec, stake_spec, unstake_spec};
use crate::rewards::{earned_value, reward_per_token_spec, reward_per_token_value, settle_spec};
use crate::state::{Address, StakingPoolState, UserState};

verus! {

/// Sum of the balances of a pool's participant records.
pub open spec fn total_balance(users: Seq<UserState>) -> int
    decreases users.len(),
{
    if users.len() == 0 {
        0
    } else {
        total_balance(users.drop_last()) + users.last().balance
    }
}

proof fn lemma_total_balance_update(users: Seq<UserState>, i: int, u: UserState)
    requires
        0 <= i < users.len(),
    ensures
        total_balance(users.update(i, u)) == total_balance(users) - users[i].balance + u.balance,
    decreases users.len(),
{
    let updated = users.update(i, u);
    if i == users.len() - 1 {
        assert(updated.drop_last() =~= users.drop_last());
    } else {
        lemma_total_balance_update(users.drop_last(), i, u);
        assert(updated.drop_last() =~= users.drop_last().update(i, u));
    }
}

proof fn lemma_total_balance_push(users: Seq<UserState>, u: UserState)
    ensures
        total_balance(users.push(u)) == total_balance(users) + u.balance,
{
    assert(users.push(u).drop_last() =~= users);
}

/// Settling never moves the pool's accumulator backwards, and leaves the
/// pool's total and the participant's balance as they were.
pub proof fn lemma_settle_monotone(pool: StakingPoolState, user: UserState, now: i64)
    ensures
        settle_spec(pool, user, now) matches Ok((p, u)) ==> {
            &&& pool.reward_per_token_stored <= p.reward_per_token_stored
            &&& p.total_supply == pool.total_supply
            &&& u.balance == user.balance
        },
{
}

/// Over two successive settlements at non-decreasing times, the accumulator
/// never decreases.
pub proof fn lemma_settle_twice_monotone(
    pool: StakingPoolState,
    first: UserState,
    second: UserState,
    now1: i64,
    now2: i64,
)
    requires
        now1 <= now2,
    ensures
        settle_spec(pool, first, now1) matches Ok((p1, _)) ==> (settle_spec(p1, second, now2) matches Ok((p2, _))
            ==> pool.reward_per_token_stored <= p1.reward_per_token_stored
            <= p2.reward_per_token_stored),
{
    lemma_settle_monotone(pool, first, now1);
    if let Ok((p1, _)) = settle_spec(pool, first, now1) {
        lemma_settle_monotone(p1, second, now2);
    }
}

/// With nothing staked the accumulator stays where it was, whatever the time.
pub proof fn lemma_zero_supply(pool: StakingPoolState, now: i64)
    requires
        pool.total_supply == 0,
    ensures
        reward_per_token_spec(pool, now) == Ok::<u64, StakeError>(pool.reward_per_token_stored),
{
}

/// A pool created with no participant records, or reset, holds a total equal
/// to the sum of its participants' balances.
pub proof fn lemma_initialize_keeps_total(
    existing: Option<StakingPoolState>,
    users: Seq<UserState>,
    authority: Address,
    staking_token_mint: Address,
    reward_token_mint: Address,
    now: i64,
)
    requires
        existing matches Some(p) ==> p.total_supply == total_balance(users),
        existing is None ==> users.len() == 0,
    ensures
        initialize_spec(existing, authority, staking_token_mint, reward_token_mint, now) matches Ok(p)
            ==> p.total_supply == total_balance(users),
{
}

/// A stake by the participant at index `i` keeps the pool's total equal to
/// the sum of the balances.
pub proof fn lemma_stake_keeps_total(
    pool: StakingPoolState,
    users: Seq<UserState>,
    i: int,
    amount: u64,
    now: i64,
)
    requires
        pool.total_supply == total_balance(users),
        0 <= i < users.len(),
    ensures
        stake_spec(Some(pool), Some(users[i]), amount, now) matches Ok((p, u))
            ==> p.total_supply == total_balance(users.update(i, u)),
{
    if let Ok((p, u)) = stake_spec(Some(pool), Some(users[i]), amount, now) {
        lemma_total_balance_update(users, i, u);
    }
}

/// A first stake, which creates the participant's record, keeps the pool's
/// total equal to the sum of the balances.
pub proof fn lemma_first_stake_keeps_total(
    pool: StakingPoolState,
    users: Seq<UserState>,
    amount: u64,
    now: i64,
)
    requires
        pool.total_supply == total_balance(users),
    ensures
        stake_spec(Some(pool), None, amount, now) matches Ok((p, u))
            ==> p.total_supply == total_balance(users.push(u)),
{
    if let Ok((p, u)) = stake_spec(Some(pool), None, amount, now) {
        lemma_total_balance_push(users, u);
    }
}

/// An unstake by the participant at index `i` keeps the pool's total equal to
/// the sum of the balances.
pub proof fn lemma_unstake_keeps_total(
    pool: StakingPoolState,
    users: Seq<UserState>,
    i: int,
    amount: u64,
    now: i64,
    signer: bool,
)
    requires
        pool.total_supply == total_balance(users),
        0 <= i < users.len(),
    ensures
        unstake_spec(Some(pool), Some(users[i]), amount, now, signer) matches Ok((p, u))
            ==> p.total_supply == total_balance(users.update(i, u)),
{
    if let Ok((p, u)) = unstake_spec(Some(pool), Some(users[i]), amount, now, signer) {
        lemma_total_balance_update(users, i, u);
    }
}

/// A claim by the participant at index `i` keeps the pool's total equal to
/// the sum of the balances.
pub proof fn lemma_get_rewards_keeps_total(
    pool: StakingPoolState,
    users: Seq<UserState>,
    i: int,
    now: i64,
    signer: bool,
)
    requires
        pool.total_supply == total_balance(users),
        0 <= i < users.len(),
    ensures
        get_rewards_spec(Some(pool), Some(users[i]), now, signer) matches Ok((p, u, _))
            ==> p.total_supply == total_balance(users.update(i, u)),
{
    if let Ok((p, u, _)) = get_rewards_spec(Some(pool), Some(users[i]), now, signer) {
        lemma_total_balance_update(users, i, u);
    }
}

/// A stake followed at the same time by an unstake of the same amount
/// succeeds and restores the participant's balance and the pool's total.
pub proof fn lemma_stake_unstake_round_trip(
    pool: StakingPoolState,
    user: Option<UserState>,
    amount: u64,
    now: i64,
)
    ensures
        stake_spec(Some(pool), user, amount, now) matches Ok((p1, u1)) ==> (unstake_spec(
            Some(p1),
            Some(u1),
            amount,
            now,
            true,
        ) matches Ok((p2, u2)) && p2.total_supply == pool.total_supply && u2.balance == (match user {
            Some(u) => u.balance,
            None => 0u64,
        })),
{
}

/// Right after a successful claim the participant's reward is zero, and a
/// second claim at the same time pays nothing and changes nothing.
pub proof fn lemma_no_double_pay(pool: StakingPoolState, user: UserState, now: i64)
    ensures
        get_rewards_spec(Some(pool), Some(user), now, true) matches Ok((p1, u1, _)) ==> {
            &&& u1.rewards == 0
            &&& get_rewards_spec(Some(p1), Some(u1), now, true) == Ok::<
                (StakingPoolState, UserState, u64),
                StakeError,
            >((p1, u1, 0))
        },
{
    if let Ok((p1, u1, _)) = get_rewards_spec(Some(pool), Some(user), now, true) {
        assert(p1.last_update_timestamp == now);
        assert(u1.reward_per_token_paid == p1.reward_per_token_stored);
        if p1.total_supply != 0 {
            assert(reward_per_token_value(p1, now) == p1.reward_per_token_stored);
        }
        assert(reward_per_token_spec(p1, now) == Ok::<u64, StakeError>(p1.reward_per_token_stored));
        assert(earned_value(u1, p1.reward_per_token_stored) == 0);
    }
}

} // verus!
