use vstd::prelude::*;

verus! {

/// Why an operation on the pool was refused. A refused operation changes nothing.
#[derive(Clone, Copy, Debug, PartialEq, Eq, Structural)]
pub enum StakeError {
    /// A stake or unstake of zero units.
    ZeroAmount,
    /// An unstake of more than the participant holds.
    InsufficientBalance,
    /// The caller is not the signer or administrator that the operation needs.
    Unauthorized,
    /// A supplied record address differs from its derived address.
    AddressMismatch,
    /// An escrow is not a token account owned by its derived authority.
    EscrowOwnershipMismatch,
    /// Time went backwards, or a value would leave the range of `u64`.
    ArithmeticFault,
    /// The pool or participant record does not exist.
    RecordNotInitialized,
    /// The instruction bytes do not encode any instruction.
    InvalidInstruction,
}

} // verus!
