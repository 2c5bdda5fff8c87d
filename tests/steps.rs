use solana_program::program_pack::Pack;
use solana_program::pubkey::Pubkey;
use staking::error::StakeError;
use staking::pda_helper::PdaHelper;
use staking::state::{Address, StakingPoolState};
use staking::steps::{get_rewards_step, initialize_step, stake_step, unstake_step};

fn addr(b: u8) -> Address {
    Address::new([b; 32])
}

fn escrow(mint: &Address, owner: &Address) -> Vec<u8> {
    let account = spl_token::state::Account {
        mint: Pubkey::new_from_array(mint.bytes),
        owner: Pubkey::new_from_array(owner.bytes),
        state: spl_token::state::AccountState::Initialized,
        ..Default::default()
    };
    let mut data = vec![0u8; spl_token::state::Account::LEN];
    spl_token::state::Account::pack(account, &mut data).unwrap();
    data
}

struct Setup {
    program: Address,
    admin: Address,
    stake_mint: Address,
    reward_mint: Address,
    pool_address: Address,
    alice: Address,
    alice_address: Address,
    stake_escrow: Vec<u8>,
    reward_escrow: Vec<u8>,
}

fn setup() -> Setup {
    let program = addr(9);
    let stake_mint = addr(2);
    let reward_mint = addr(3);
    let pool_address = PdaHelper::find_staking_pool_pda(&stake_mint, &reward_mint, &program).unwrap().0;
    let stake_auth = PdaHelper::find_staking_token_pda(&stake_mint, &program).unwrap().0;
    let reward_auth = PdaHelper::find_rewards_token_pda(&reward_mint, &program).unwrap().0;
    let alice = addr(5);
    let alice_address = PdaHelper::find_user_state_pda(&pool_address, &alice, &program).unwrap().0;
    Setup {
        program,
        admin: addr(1),
        stake_mint,
        reward_mint,
        pool_address,
        alice,
        alice_address,
        stake_escrow: escrow(&stake_mint, &stake_auth),
        reward_escrow: escrow(&reward_mint, &reward_auth),
    }
}

fn init(s: &Setup) -> StakingPoolState {
    initialize_step(
        &s.program,
        &s.pool_address,
        None,
        &s.admin,
        &s.stake_mint,
        &s.reward_mint,
        &s.stake_escrow,
        &s.reward_escrow,
        0,
    )
    .unwrap()
}

#[test]
fn steps_run_a_whole_session() {
    let s = setup();
    let pool = init(&s);
    assert_eq!(pool.staking_token_mint, s.stake_mint);
    let (pool, user) = stake_step(
        &s.program, &s.pool_address, Some(pool), &s.alice, &s.alice_address, None, &s.stake_mint,
        &s.stake_escrow, 100, 0,
    )
    .unwrap();
    assert_eq!(user.balance, 100);
    let (pool, user) = unstake_step(
        &s.program, &s.pool_address, Some(pool), &s.alice, &s.alice_address, Some(user),
        &s.stake_mint, &s.stake_escrow, 50, 0, true,
    )
    .unwrap();
    assert_eq!(user.balance, 50);
    assert_eq!(pool.total_supply, 50);
    let (_, user, paid) = get_rewards_step(
        &s.program, &s.pool_address, Some(pool), &s.alice, &s.alice_address, Some(user),
        &s.reward_mint, &s.reward_escrow, 100, true,
    )
    .unwrap();
    assert_eq!(paid, 10_000);
    assert_eq!(user.rewards, 0);
}

#[test]
fn initialize_step_rejects_wrong_pool_address() {
    let s = setup();
    let r = initialize_step(
        &s.program, &addr(7), None, &s.admin, &s.stake_mint, &s.reward_mint, &s.stake_escrow,
        &s.reward_escrow, 0,
    );
    assert_eq!(r, Err(StakeError::AddressMismatch));
}

#[test]
fn initialize_step_rejects_foreign_escrows() {
    let s = setup();
    let foreign = escrow(&s.stake_mint, &addr(7));
    let r = initialize_step(
        &s.program, &s.pool_address, None, &s.admin, &s.stake_mint, &s.reward_mint, &foreign,
        &s.reward_escrow, 0,
    );
    assert_eq!(r, Err(StakeError::EscrowOwnershipMismatch));
    let r = initialize_step(
        &s.program, &s.pool_address, None, &s.admin, &s.stake_mint, &s.reward_mint, &s.stake_escrow,
        &s.stake_escrow, 0,
    );
    assert_eq!(r, Err(StakeError::EscrowOwnershipMismatch));
}

#[test]
fn initialize_step_reset_by_stranger_is_unauthorized() {
    let s = setup();
    let pool = init(&s);
    let r = initialize_step(
        &s.program, &s.pool_address, Some(pool), &addr(8), &s.stake_mint, &s.reward_mint,
        &s.stake_escrow, &s.reward_escrow, 5,
    );
    assert_eq!(r, Err(StakeError::Unauthorized));
}

#[test]
fn stake_step_rejects_wrong_addresses() {
    let s = setup();
    let pool = init(&s);
    let stake = |pool_address: &Address, user_address: &Address, mint: &Address| {
        stake_step(
            &s.program, pool_address, Some(pool), &s.alice, user_address, None, mint,
            &s.stake_escrow, 10, 0,
        )
    };
    assert_eq!(stake(&addr(7), &s.alice_address, &s.stake_mint), Err(StakeError::AddressMismatch));
    assert_eq!(stake(&s.pool_address, &addr(7), &s.stake_mint), Err(StakeError::AddressMismatch));
    assert_eq!(stake(&s.pool_address, &s.alice_address, &addr(7)), Err(StakeError::AddressMismatch));
    assert!(stake(&s.pool_address, &s.alice_address, &s.stake_mint).is_ok());
}

#[test]
fn stake_step_rejects_foreign_escrow() {
    let s = setup();
    let pool = init(&s);
    let foreign_owner = escrow(&s.stake_mint, &addr(7));
    let stake_auth = PdaHelper::find_staking_token_pda(&s.stake_mint, &s.program).unwrap().0;
    let foreign_mint = escrow(&addr(7), &stake_auth);
    for e in [foreign_owner, foreign_mint] {
        let r = stake_step(
            &s.program, &s.pool_address, Some(pool), &s.alice, &s.alice_address, None,
            &s.stake_mint, &e, 10, 0,
        );
        assert_eq!(r, Err(StakeError::EscrowOwnershipMismatch));
    }
}

#[test]
fn stake_step_zero_amount_comes_first() {
    let s = setup();
    let r = stake_step(
        &s.program, &addr(7), None, &s.alice, &addr(7), None, &s.stake_mint, &[], 0, 0,
    );
    assert_eq!(r, Err(StakeError::ZeroAmount));
    let r = stake_step(
        &s.program, &s.pool_address, None, &s.alice, &s.alice_address, None, &s.stake_mint,
        &s.stake_escrow, 5, 0,
    );
    assert_eq!(r, Err(StakeError::RecordNotInitialized));
}

#[test]
fn unstake_step_rejects_other_participants_record() {
    let s = setup();
    let pool = init(&s);
    let (pool, user) = stake_step(
        &s.program, &s.pool_address, Some(pool), &s.alice, &s.alice_address, None, &s.stake_mint,
        &s.stake_escrow, 100, 0,
    )
    .unwrap();
    // a second signer names alice's record as its own
    let r = unstake_step(
        &s.program, &s.pool_address, Some(pool), &addr(6), &s.alice_address, Some(user),
        &s.stake_mint, &s.stake_escrow, 100, 0, true,
    );
    assert_eq!(r, Err(StakeError::AddressMismatch));
    let r = unstake_step(
        &s.program, &s.pool_address, Some(pool), &s.alice, &s.alice_address, Some(user),
        &s.stake_mint, &escrow(&s.stake_mint, &addr(7)), 100, 0, true,
    );
    assert_eq!(r, Err(StakeError::EscrowOwnershipMismatch));
    let r = unstake_step(
        &s.program, &s.pool_address, Some(pool), &s.alice, &s.alice_address, None,
        &s.stake_mint, &s.stake_escrow, 100, 0, true,
    );
    assert_eq!(r, Err(StakeError::RecordNotInitialized));
    let r = unstake_step(
        &s.program, &s.pool_address, Some(pool), &s.alice, &s.alice_address, Some(user),
        &s.stake_mint, &s.stake_escrow, 100, 0, false,
    );
    assert_eq!(r, Err(StakeError::Unauthorized));
}

#[test]
fn get_rewards_step_rejects_wrong_record_or_escrow() {
    let s = setup();
    let pool = init(&s);
    let (pool, user) = stake_step(
        &s.program, &s.pool_address, Some(pool), &s.alice, &s.alice_address, None, &s.stake_mint,
        &s.stake_escrow, 100, 0,
    )
    .unwrap();
    let r = get_rewards_step(
        &s.program, &s.pool_address, Some(pool), &addr(6), &s.alice_address, Some(user),
        &s.reward_mint, &s.reward_escrow, 10, true,
    );
    assert_eq!(r, Err(StakeError::AddressMismatch));
    let r = get_rewards_step(
        &s.program, &s.pool_address, Some(pool), &s.alice, &s.alice_address, Some(user),
        &s.reward_mint, &s.stake_escrow, 10, true,
    );
    assert_eq!(r, Err(StakeError::EscrowOwnershipMismatch));
    let r = get_rewards_step(
        &s.program, &s.pool_address, Some(pool), &s.alice, &s.alice_address, Some(user),
        &s.stake_mint, &s.reward_escrow, 10, true,
    );
    assert_eq!(r, Err(StakeError::AddressMismatch));
}
