use vstd::prelude::*;
use crate::codec::{le_bytes, read_u64_at, write_bytes_at, write_u64_at};

verus! {

/// A 32-byte account address or asset identifier.
#[derive(Clone, Copy, Debug, PartialEq, Eq)]
pub struct Address {
    pub bytes: [u8; 32],
}

impl View for Address {
    type V = Seq<u8>;

    open spec fn view(&self) -> Seq<u8> {
        self.bytes@
    }
}

impl Address {
    pub fn new(bytes: [u8; 32]) -> (r: Address)
        ensures
            r.bytes == bytes,
    {
        Address { bytes }
    }

    /// The address held in the 32 bytes of `data` from position `at` on.
    pub fn read_from(data: &[u8], at: usize) -> (r: Address)
        requires
            at + 32 <= data@.len(),
        ensures
            r@ == data@.subrange(at as int, at + 32),
    {
        let len = data.len();
        let mut bytes = [0u8; 32];
        let mut i: usize = 0;
        while i < 32
            invariant
                len == data@.len(),
                at + 32 <= len,
                0 <= i <= 32,
                bytes@.len() == 32,
                forall|j: int| 0 <= j < i ==> bytes@[j] == data@[at + j],
            decreases 32 - i,
        {
            bytes[i] = data[at + i];
            i = i + 1;
        }
        let r = Address { bytes };
        assert(r@ =~= data@.subrange(at as int, at + 32));
        r
    }

    /// Byte-wise comparison of two addresses.
    pub fn same_as(&self, other: &Address) -> (r: bool)
        ensures
            r == (self@ == other@),
    {
        let mut i: usize = 0;
        while i < 32
            invariant
                0 <= i <= 32,
                self@.len() == 32,
                other@.len() == 32,
                forall|j: int| 0 <= j < i ==> self@[j] == other@[j],
            decreases 32 - i,
        {
            if self.bytes[i] != other.bytes[i] {
                return false;
            }
            i = i + 1;
        }
        assert(self@ =~= other@);
        true
    }
}

/// The aggregate record of one pool.
#[derive(Clone, Copy, Debug, PartialEq, Eq)]
pub struct StakingPoolState {
    pub admin: Address,
    pub staking_token_mint: Address,
    pub reward_token_mint: Address,
    /// Sum of the balances of all participants.
    pub total_supply: u64,
    /// Accumulated reward per staked unit, scaled by `PRECISION`.
    pub reward_per_token_stored: u64,
    /// Time, in seconds, of the last settlement.
    pub last_update_timestamp: i64,
}

/// The record of one participant in one pool.
#[derive(Clone, Copy, Debug, PartialEq, Eq)]
pub struct UserState {
    /// Stake units deposited.
    pub balance: u64,
    /// The pool's accumulator at this participant's last settlement.
    pub reward_per_token_paid: u64,
    /// Reward settled but not yet claimed.
    pub rewards: u64,
}

/// The stored layout of a pool record: the three addresses, then the total,
/// the accumulator and the timestamp as little-endian 64-bit integers.
pub open spec fn pool_bytes(p: StakingPoolState) -> Seq<u8> {
    p.admin@ + p.staking_token_mint@ + p.reward_token_mint@ + le_bytes(p.total_supply) + le_bytes(
        p.reward_per_token_stored,
    ) + le_bytes(#[verifier::truncate] (p.last_update_timestamp as u64))
}

/// The stored layout of a participant record: three little-endian 64-bit integers.
pub open spec fn user_bytes(u: UserState) -> Seq<u8> {
    le_bytes(u.balance) + le_bytes(u.reward_per_token_paid) + le_bytes(u.rewards)
}

impl StakingPoolState {
    /// Size in bytes of a stored pool record.
    pub const LEN: usize = 120;

    /// Reads a pool record from its stored bytes.
    pub fn unpack(data: &mut [u8]) -> (r: StakingPoolState)
        requires
            old(data)@.len() == StakingPoolState::LEN,
        ensures
            pool_bytes(r) == old(data)@,
            final(data)@ == old(data)@,
    {
        let admin = Address::read_from(data, 0);
        let staking_token_mint = Address::read_from(data, 32);
        let reward_token_mint = Address::read_from(data, 64);
        let total_supply = read_u64_at(data, 96);
        let reward_per_token_stored = read_u64_at(data, 104);
        let last = read_u64_at(data, 112);
        let r = StakingPoolState {
            admin,
            staking_token_mint,
            reward_token_mint,
            total_supply,
            reward_per_token_stored,
            last_update_timestamp: #[verifier::truncate] (last as i64),
        };
        assert((#[verifier::truncate] ((#[verifier::truncate] (last as i64)) as u64)) == last)
            by (bit_vector);
        assert(pool_bytes(r) =~= data@);
        r
    }

    /// Writes the record into the first `LEN` bytes of `data`.
    pub fn pack(&self, data: &mut [u8])
        requires
            old(data)@.len() >= StakingPoolState::LEN,
        ensures
            final(data)@ == pool_bytes(*self) + old(data)@.subrange(
                StakingPoolState::LEN as int,
                old(data)@.len() as int,
            ),
    {
        write_bytes_at(data, 0, self.admin.bytes.as_slice());
        write_bytes_at(data, 32, self.staking_token_mint.bytes.as_slice());
        write_bytes_at(data, 64, self.reward_token_mint.bytes.as_slice());
        write_u64_at(data, 96, self.total_supply);
        write_u64_at(data, 104, self.reward_per_token_stored);
        write_u64_at(data, 112, #[verifier::truncate] (self.last_update_timestamp as u64));
        assert(data@ =~= pool_bytes(*self) + old(data)@.subrange(
            StakingPoolState::LEN as int,
            old(data)@.len() as int,
        ));
    }
}

impl UserState {
    /// Size in bytes of a stored participant record.
    pub const LEN: usize = 24;

    /// Reads a participant record from its stored bytes.
    pub fn unpack(data: &mut [u8]) -> (r: UserState)
        requires
            old(data)@.len() == UserState::LEN,
        ensures
            user_bytes(r) == old(data)@,
            final(data)@ == old(data)@,
    {
        let balance = read_u64_at(data, 0);
        let reward_per_token_paid = read_u64_at(data, 8);
        let rewards = read_u64_at(data, 16);
        let r = UserState { balance, reward_per_token_paid, rewards };
        assert(user_bytes(r) =~= data@);
        r
    }

    /// Writes the record into the first `LEN` bytes of `data`.
    pub fn pack(&self, data: &mut [u8])
        requires
            old(data)@.len() >= UserState::LEN,
        ensures
            final(data)@ == user_bytes(*self) + old(data)@.subrange(
                UserState::LEN as int,
                old(data)@.len() as int,
            ),
    {
        write_u64_at(data, 0, self.balance);
        write_u64_at(data, 8, self.reward_per_token_paid);
        write_u64_at(data, 16, self.rewards);
        assert(data@ =~= user_bytes(*self) + old(data)@.subrange(
            UserState::LEN as int,
            old(data)@.len() as int,
        ));
    }

    /// A participant record with every field zero, as created on a first stake.
    pub fn new() -> (r: UserState)
        ensures
            r == UserState::empty(),
    {
        UserState { balance: 0, reward_per_token_paid: 0, rewards: 0 }
    }

    pub open spec fn empty() -> UserState {
        UserState { balance: 0, reward_per_token_paid: 0, rewards: 0 }
    }
}

} // verus!
