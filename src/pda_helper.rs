use vstd::prelude::*;
use solana_program::pubkey::Pubkey;
use vstd::string::StringSliceAdditionalSpecFns;
use crate::codec::read_bytes;
use crate::state::Address;

verus! {

/// Seed label of a pool record.
pub const STAKING_POOL_SEED: &'static str = "staking-pool";

/// Seed label of the stake-asset escrow.
pub const STAKING_TOKEN_SEED: &'static str = "staking-token";

/// Seed label of the reward-asset escrow.
pub const REWARDS_TOKEN_SEED: &'static str = "rewards-token";

/// Seed label of a participant record.
pub const USER_STATE_SEED: &'static str = "user-state";

/// The address and bump seed derived from `seeds` under `program_id`, if any.
pub uninterp spec fn program_address(seeds: Seq<Seq<u8>>, program_id: Seq<u8>) -> Option<(Seq<u8>, u8)>;

/// The bytes of each seed.
pub open spec fn seed_view(seeds: Seq<Vec<u8>>) -> Seq<Seq<u8>> {
    seeds.map_values(|s: Vec<u8>| s@)
}

/// Relies on solana_program's `Pubkey::try_find_program_address`: a search
/// over bump seeds whose outcome depends on the seeds and the program id alone.
#[verifier::external_body]
fn try_find_program_address(seeds: &Vec<Vec<u8>>, program_id: &Address) -> (r: Option<(Address, u8)>)
    ensures
        match r {
            Some((a, bump)) => program_address(seed_view(seeds@), program_id@) == Some((a@, bump)),
            None => program_address(seed_view(seeds@), program_id@) is None,
        },
{
    let seeds: Vec<&[u8]> = seeds.iter().map(|s| s.as_slice()).collect();
    Pubkey::try_find_program_address(&seeds, &Pubkey::new_from_array(program_id.bytes)).map(
        |(key, bump)| (Address::new(key.to_bytes()), bump),
    )
}

/// What a derivation returns, seen as plain values.
pub open spec fn derived_view(r: Option<(Address, u8)>) -> Option<(Seq<u8>, u8)> {
    match r {
        Some((a, bump)) => Some((a@, bump)),
        None => None,
    }
}

fn address_seed(a: &Address) -> (r: Vec<u8>)
    ensures
        r@ == a@,
{
    read_bytes(a.bytes.as_slice(), 0, 32)
}

fn label_seed(label: &str) -> (r: Vec<u8>)
    ensures
        r@ == label.spec_bytes(),
{
    let bytes = label.as_bytes();
    read_bytes(bytes, 0, bytes.len())
}

/// Derivation of the addresses of the pool's records and escrows.
pub struct PdaHelper;

impl PdaHelper {
    /// The pool record's address, from the two asset identifiers.
    pub fn find_staking_pool_pda(
        staking_token_mint: &Address,
        rewards_token_mint: &Address,
        program_id: &Address,
    ) -> (r: Option<(Address, u8)>)
        ensures
            derived_view(r) == program_address(
                seq![staking_token_mint@, rewards_token_mint@, STAKING_POOL_SEED.spec_bytes()],
                program_id@,
            ),
    {
        let seeds = vec![
            address_seed(staking_token_mint),
            address_seed(rewards_token_mint),
            label_seed(STAKING_POOL_SEED),
        ];
        assert(seed_view(seeds@) =~= seq![staking_token_mint@, rewards_token_mint@, STAKING_POOL_SEED.spec_bytes()]);
        try_find_program_address(&seeds, program_id)
    }

    /// The stake-asset escrow's authority, from the stake asset's identifier.
    pub fn find_staking_token_pda(staking_token_mint: &Address, program_id: &Address) -> (r: Option<
        (Address, u8),
    >)
        ensures
            derived_view(r) == program_address(
                seq![staking_token_mint@, STAKING_TOKEN_SEED.spec_bytes()],
                program_id@,
            ),
    {
        let seeds = vec![address_seed(staking_token_mint), label_seed(STAKING_TOKEN_SEED)];
        assert(seed_view(seeds@) =~= seq![staking_token_mint@, STAKING_TOKEN_SEED.spec_bytes()]);
        try_find_program_address(&seeds, program_id)
    }

    /// The reward-asset escrow's authority, from the reward asset's identifier.
    pub fn find_rewards_token_pda(rewards_token_mint: &Address, program_id: &Address) -> (r: Option<
        (Address, u8),
    >)
        ensures
            derived_view(r) == program_address(
                seq![rewards_token_mint@, REWARDS_TOKEN_SEED.spec_bytes()],
                program_id@,
            ),
    {
        let seeds = vec![address_seed(rewards_token_mint), label_seed(REWARDS_TOKEN_SEED)];
        assert(seed_view(seeds@) =~= seq![rewards_token_mint@, REWARDS_TOKEN_SEED.spec_bytes()]);
        try_find_program_address(&seeds, program_id)
    }

    /// A participant record's address, from the pool's address and the participant's.
    pub fn find_user_state_pda(staking_pool: &Address, user: &Address, program_id: &Address) -> (r:
        Option<(Address, u8)>)
        ensures
            derived_view(r) == program_address(
                seq![staking_pool@, user@, USER_STATE_SEED.spec_bytes()],
                program_id@,
            ),
    {
        let seeds = vec![address_seed(staking_pool), address_seed(user), label_seed(USER_STATE_SEED)];
        assert(seed_view(seeds@) =~= seq![staking_pool@, user@, USER_STATE_SEED.spec_bytes()]);
        try_find_program_address(&seeds, program_id)
    }
}

} // verus!
