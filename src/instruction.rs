use vstd::prelude::*;
use crate::codec::{le_bytes, read_u64_at};
use crate::error::StakeError;

verus! {

/// The operations that a caller can ask for.
#[derive(Clone, Copy, Debug, PartialEq, Eq, Structural)]
pub enum StakingInstruction {
    /// Create or reset the pool.
    Init,
    /// Deposit `amount` stake units.
    Stake { amount: u64 },
    /// Withdraw `amount` stake units.
    Unstake { amount: u64 },
    /// Claim the settled reward.
    GetRewards,
}

/// The wire form of an instruction: a one-byte tag, then the amount as a
/// little-endian 64-bit integer where there is one.
pub open spec fn instruction_bytes(ins: StakingInstruction) -> Seq<u8> {
    match ins {
        StakingInstruction::Init => seq![0u8],
        StakingInstruction::Stake { amount } => seq![1u8] + le_bytes(amount),
        StakingInstruction::Unstake { amount } => seq![2u8] + le_bytes(amount),
        StakingInstruction::GetRewards => seq![3u8],
    }
}

impl StakingInstruction {
    /// Decodes an instruction; the bytes must be exactly one instruction's wire form.
    pub fn unpack(data: &[u8]) -> (r: Result<StakingInstruction, StakeError>)
        ensures
            match r {
                Ok(ins) => instruction_bytes(ins) == data@,
                Err(e) => e == StakeError::InvalidInstruction && forall|ins: StakingInstruction|
                    #[trigger] instruction_bytes(ins) != data@,
            },
    {
        let len = data.len();
        if len == 0 {
            proof {
                assert forall|ins: StakingInstruction| #[trigger] instruction_bytes(ins) != data@ by {
                    assert(instruction_bytes(ins).len() > 0);
                }
            }
            return Err(StakeError::InvalidInstruction);
        }
        let tag = data[0];
        if (tag == 0 || tag == 3) && len == 1 {
            let ins = if tag == 0 {
                StakingInstruction::Init
            } else {
                StakingInstruction::GetRewards
            };
            assert(instruction_bytes(ins) =~= data@);
            return Ok(ins);
        }
        if (tag == 1 || tag == 2) && len == 9 {
            let amount = read_u64_at(data, 1);
            let ins = if tag == 1 {
                StakingInstruction::Stake { amount }
            } else {
                StakingInstruction::Unstake { amount }
            };
            assert(instruction_bytes(ins) =~= data@);
            return Ok(ins);
        }
        proof {
            assert forall|ins: StakingInstruction| #[trigger] instruction_bytes(ins) != data@ by {
                let b = instruction_bytes(ins);
                if b == data@ {
                    assert(b[0] == tag);
                }
            }
        }
        Err(StakeError::InvalidInstruction)
    }
}

} // verus!
