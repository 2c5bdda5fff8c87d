use vstd::prelude::*;
use solana_program::program_pack::Pack;
use crate::error::StakeError;
use crate::state::Address;

verus! {

/// An option tag of the token account layout: `[0, 0, 0, 0]` or `[1, 0, 0, 0]`.
pub open spec fn option_tag_valid(d: Seq<u8>, at: int) -> bool {
    (d[at] == 0 || d[at] == 1) && d[at + 1] == 0 && d[at + 2] == 0 && d[at + 3] == 0
}

/// The bytes of an initialised token account: 165 of them, the state byte
/// at 108 initialised or frozen, and the option tags of the delegate, the
/// native amount and the close authority each well formed.
pub open spec fn token_account_valid(d: Seq<u8>) -> bool {
    &&& d.len() == 165
    &&& (d[108] == 1 || d[108] == 2)
    &&& option_tag_valid(d, 72)
    &&& option_tag_valid(d, 109)
    &&& option_tag_valid(d, 129)
}

/// Relies on spl_token's `Account::unpack` (through `Pack::unpack`): it
/// accepts exactly the bytes of an initialised token account, whose mint is
/// held in bytes 0 to 32 and whose owner in bytes 32 to 64.
#[verifier::external_body]
fn token_account_mint_and_owner(data: &[u8]) -> (r: Option<(Address, Address)>)
    ensures
        r is Some <==> token_account_valid(data@),
        r matches Some((mint, owner)) ==> mint@ == data@.subrange(0, 32) && owner@ == data@.subrange(
            32,
            64,
        ),
{
    spl_token::state::Account::unpack(data).ok().map(
        |a| (Address::new(a.mint.to_bytes()), Address::new(a.owner.to_bytes())),
    )
}

/// Accepts a supplied record address only when it is the derived one.
pub fn check_address(supplied: &Address, derived: Option<(Address, u8)>) -> (r: Result<(), StakeError>)
    ensures
        r is Ok <==> (derived matches Some((a, _)) && a@ == supplied@),
        r is Err ==> r == Err::<(), StakeError>(StakeError::AddressMismatch),
{
    match derived {
        Some((a, _)) => if a.same_as(supplied) {
            Ok(())
        } else {
            Err(StakeError::AddressMismatch)
        },
        None => Err(StakeError::AddressMismatch),
    }
}

/// Accepts a supplied asset identifier only when it is the one on record.
pub fn check_mint(supplied: &Address, recorded: &Address) -> (r: Result<(), StakeError>)
    ensures
        r is Ok <==> supplied@ == recorded@,
        r is Err ==> r == Err::<(), StakeError>(StakeError::AddressMismatch),
{
    if supplied.same_as(recorded) {
        Ok(())
    } else {
        Err(StakeError::AddressMismatch)
    }
}

/// Accepts a token account, given as its mint and owner, only when it holds
/// the asset `mint` and is owned by `authority`.
pub fn check_token_account(account: Option<(Address, Address)>, mint: &Address, authority: &Address) -> (r:
    Result<(), StakeError>)
    ensures
        r is Ok <==> (account matches Some((m, o)) && m@ == mint@ && o@ == authority@),
        r is Err ==> r == Err::<(), StakeError>(StakeError::EscrowOwnershipMismatch),
{
    match account {
        Some((m, o)) => if m.same_as(mint) && o.same_as(authority) {
            Ok(())
        } else {
            Err(StakeError::EscrowOwnershipMismatch)
        },
        None => Err(StakeError::EscrowOwnershipMismatch),
    }
}

/// An escrow's stored bytes are an initialised token account of the asset
/// `mint`, owned by `authority`.
pub open spec fn escrow_valid(d: Seq<u8>, mint: Seq<u8>, authority: Seq<u8>) -> bool {
    token_account_valid(d) && d.subrange(0, 32) == mint && d.subrange(32, 64) == authority
}

/// Accepts the stored bytes of an escrow only when they hold an initialised
/// token account of the asset `mint`, owned by `authority`.
pub fn check_escrow(escrow_data: &[u8], mint: &Address, authority: &Address) -> (r: Result<(), StakeError>)
    ensures
        r is Ok <==> escrow_valid(escrow_data@, mint@, authority@),
        r is Err ==> r == Err::<(), StakeError>(StakeError::EscrowOwnershipMismatch),
{
    check_token_account(token_account_mint_and_owner(escrow_data), mint, authority)
}

} // verus!
