use solana_program::program_pack::Pack;
use solana_program::pubkey::Pubkey;
use staking::accounts::{check_address, check_escrow, check_mint, check_token_account};
use staking::error::StakeError;
use staking::instruction::StakingInstruction;
use staking::pda_helper::PdaHelper;
use staking::state::{Address, StakingPoolState, UserState};

fn addr(b: u8) -> Address {
    Address::new([b; 32])
}

#[test]
fn user_state_pack_layout() {
    let user = UserState { balance: 0x0102, reward_per_token_paid: 7, rewards: u64::MAX };
    let mut data = vec![0xaau8; 26];
    user.pack(&mut data);
    let mut expected = vec![0x02u8, 0x01, 0, 0, 0, 0, 0, 0, 7, 0, 0, 0, 0, 0, 0, 0];
    expected.extend_from_slice(&[0xff; 8]);
    expected.extend_from_slice(&[0xaa, 0xaa]);
    assert_eq!(data, expected);
}

#[test]
fn user_state_round_trip() {
    let user = UserState { balance: 100, reward_per_token_paid: 1_000_000_000_000, rewards: 10_000 };
    let mut data = vec![0u8; UserState::LEN];
    user.pack(&mut data);
    assert_eq!(UserState::unpack(&mut data), user);
}

#[test]
fn pool_state_pack_layout_and_round_trip() {
    let pool = StakingPoolState {
        admin: addr(1),
        staking_token_mint: addr(2),
        reward_token_mint: addr(3),
        total_supply: 5,
        reward_per_token_stored: 6,
        last_update_timestamp: -2,
    };
    let mut data = vec![0u8; StakingPoolState::LEN];
    pool.pack(&mut data);
    assert_eq!(&data[0..32], &[1u8; 32]);
    assert_eq!(&data[32..64], &[2u8; 32]);
    assert_eq!(&data[64..96], &[3u8; 32]);
    assert_eq!(&data[96..104], &[5, 0, 0, 0, 0, 0, 0, 0]);
    assert_eq!(&data[104..112], &[6, 0, 0, 0, 0, 0, 0, 0]);
    assert_eq!(&data[112..120], &[0xfe, 0xff, 0xff, 0xff, 0xff, 0xff, 0xff, 0xff]);
    assert_eq!(StakingPoolState::unpack(&mut data), pool);
}

#[test]
fn instruction_decoding() {
    assert_eq!(StakingInstruction::unpack(&[0]), Ok(StakingInstruction::Init));
    assert_eq!(StakingInstruction::unpack(&[3]), Ok(StakingInstruction::GetRewards));
    assert_eq!(
        StakingInstruction::unpack(&[1, 100, 0, 0, 0, 0, 0, 0, 0]),
        Ok(StakingInstruction::Stake { amount: 100 })
    );
    assert_eq!(
        StakingInstruction::unpack(&[2, 0x32, 1, 0, 0, 0, 0, 0, 0]),
        Ok(StakingInstruction::Unstake { amount: 0x132 })
    );
}

#[test]
fn instruction_decoding_rejects_malformed() {
    let bad = StakeError::InvalidInstruction;
    assert_eq!(StakingInstruction::unpack(&[]), Err(bad));
    assert_eq!(StakingInstruction::unpack(&[4]), Err(bad));
    assert_eq!(StakingInstruction::unpack(&[0, 0]), Err(bad));
    assert_eq!(StakingInstruction::unpack(&[1, 100, 0, 0]), Err(bad));
    assert_eq!(StakingInstruction::unpack(&[2, 0, 0, 0, 0, 0, 0, 0, 0, 0]), Err(bad));
}

fn key(a: &Address) -> Pubkey {
    Pubkey::new_from_array(a.bytes)
}

#[test]
fn pool_address_matches_derivation() {
    let program = addr(9);
    let (a, bump) = PdaHelper::find_staking_pool_pda(&addr(2), &addr(3), &program).unwrap();
    let (expected, expected_bump) = Pubkey::find_program_address(
        &[&[2u8; 32], &[3u8; 32], b"staking-pool"],
        &key(&program),
    );
    assert_eq!(key(&a), expected);
    assert_eq!(bump, expected_bump);
    assert_ne!(a, program);
}

#[test]
fn escrow_and_user_addresses_match_derivation() {
    let program = addr(9);
    let (s, _) = PdaHelper::find_staking_token_pda(&addr(2), &program).unwrap();
    let (r, _) = PdaHelper::find_rewards_token_pda(&addr(3), &program).unwrap();
    let (u, _) = PdaHelper::find_user_state_pda(&addr(4), &addr(5), &program).unwrap();
    let p = key(&program);
    assert_eq!(key(&s), Pubkey::find_program_address(&[&[2u8; 32], b"staking-token"], &p).0);
    assert_eq!(key(&r), Pubkey::find_program_address(&[&[3u8; 32], b"rewards-token"], &p).0);
    assert_eq!(key(&u), Pubkey::find_program_address(&[&[4u8; 32], &[5u8; 32], b"user-state"], &p).0);
    assert_ne!(s, r);
}

#[test]
fn address_check() {
    let program = addr(9);
    let derived = PdaHelper::find_staking_pool_pda(&addr(2), &addr(3), &program);
    let good = derived.unwrap().0;
    assert_eq!(check_address(&good, derived), Ok(()));
    assert_eq!(check_address(&addr(7), derived), Err(StakeError::AddressMismatch));
    assert_eq!(check_address(&good, None), Err(StakeError::AddressMismatch));
}

fn token_account_bytes(mint: &Address, owner: &Address) -> Vec<u8> {
    let account = spl_token::state::Account {
        mint: key(mint),
        owner: key(owner),
        amount: 10,
        state: spl_token::state::AccountState::Initialized,
        ..Default::default()
    };
    let mut data = vec![0u8; spl_token::state::Account::LEN];
    spl_token::state::Account::pack(account, &mut data).unwrap();
    data
}

#[test]
fn escrow_owner_check() {
    let authority = addr(6);
    let mint = addr(2);
    let data = token_account_bytes(&mint, &authority);
    assert_eq!(check_escrow(&data, &mint, &authority), Ok(()));
    assert_eq!(check_escrow(&data, &mint, &addr(7)), Err(StakeError::EscrowOwnershipMismatch));
    assert_eq!(check_escrow(&data, &addr(8), &authority), Err(StakeError::EscrowOwnershipMismatch));
    assert_eq!(check_escrow(&data[..100], &mint, &authority), Err(StakeError::EscrowOwnershipMismatch));
    assert_eq!(check_escrow(&vec![0u8; 165], &addr(0), &addr(0)), Err(StakeError::EscrowOwnershipMismatch));
}

#[test]
fn escrow_layout_tags_decide_acceptance() {
    let authority = addr(6);
    let mint = addr(2);
    let data = token_account_bytes(&mint, &authority);
    let mut frozen = data.clone();
    frozen[108] = 2;
    assert_eq!(check_escrow(&frozen, &mint, &authority), Ok(()));
    let mut bad_state = data.clone();
    bad_state[108] = 3;
    assert_eq!(check_escrow(&bad_state, &mint, &authority), Err(StakeError::EscrowOwnershipMismatch));
    for at in [72usize, 109, 129] {
        let mut some = data.clone();
        some[at] = 1;
        assert_eq!(check_escrow(&some, &mint, &authority), Ok(()));
        let mut bad_tag = data.clone();
        bad_tag[at] = 2;
        assert_eq!(check_escrow(&bad_tag, &mint, &authority), Err(StakeError::EscrowOwnershipMismatch));
        let mut bad_high = data.clone();
        bad_high[at + 3] = 1;
        assert_eq!(check_escrow(&bad_high, &mint, &authority), Err(StakeError::EscrowOwnershipMismatch));
    }
}

#[test]
fn token_account_and_mint_checks() {
    let m = addr(1);
    let o = addr(2);
    assert_eq!(check_token_account(Some((m, o)), &m, &o), Ok(()));
    assert_eq!(check_token_account(Some((m, o)), &o, &o), Err(StakeError::EscrowOwnershipMismatch));
    assert_eq!(check_token_account(Some((m, o)), &m, &m), Err(StakeError::EscrowOwnershipMismatch));
    assert_eq!(check_token_account(None, &m, &o), Err(StakeError::EscrowOwnershipMismatch));
    assert_eq!(check_mint(&m, &m), Ok(()));
    assert_eq!(check_mint(&m, &o), Err(StakeError::AddressMismatch));
}

#[test]
fn address_comparison() {
    let mut b = [1u8; 32];
    assert!(addr(1).same_as(&Address::new(b)));
    b[31] = 0;
    assert!(!addr(1).same_as(&Address::new(b)));
}
