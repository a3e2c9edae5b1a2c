//! Owner-only calls, and the bank's configuration and user records.

use vstd::prelude::*;
use crate::address::{Address, address_eq};

verus! {

/// The bytes of the owner's address
/// (`JYLqLj2ztNMHUKXjqPthg9UiYWzkkBgGh6xJvg2v4hp`).
pub open spec fn spec_owner_key() -> Seq<u8> {
    seq![4u8, 126, 79, 237, 114, 255, 60, 103, 114, 198, 134, 5, 23, 53, 188, 169,
         191, 189, 183, 40, 134, 101, 207, 149, 165, 250, 171, 41, 133, 247, 242, 35]
}

/// `solana_address::Address::from_str_const` applied to the owner's
/// base-58 address; the contract claims the 32 decoded bytes.
#[verifier::external_body]
pub(crate) fn owner_key() -> (r: Address)
    ensures
        r@ == spec_owner_key(),
{
    solana_address::Address::from_str_const("JYLqLj2ztNMHUKXjqPthg9UiYWzkkBgGh6xJvg2v4hp").to_bytes()
}

/// Why an owner-only call is refused.
#[derive(Debug, Clone, Copy, PartialEq, Eq, Structural)]
pub enum OnlyOwnerError {
    NotOwner,
}

/// Accepts the call when the paying signer is the owner.
pub fn call(payer: &Address) -> (r: Result<(), OnlyOwnerError>)
    ensures
        r is Ok <==> payer@ == spec_owner_key(),
        r is Err ==> r == Err::<(), OnlyOwnerError>(OnlyOwnerError::NotOwner),
{
    let owner = owner_key();
    if address_eq(payer, &owner) {
        Ok(())
    } else {
        Err(OnlyOwnerError::NotOwner)
    }
}

/// The bank's configuration: its manager and the total deposited.
#[derive(Debug, Clone, Copy)]
pub struct Bank {
    pub manager: Address,
    pub total_deposit: u64,
}

/// A user's record at the bank: its authority and its balance.
#[derive(Debug, Clone, Copy)]
pub struct UserAccount {
    pub authority: Address,
    pub amount: u64,
}

/// A new bank managed by `payer`, with nothing deposited.
pub fn initialize_bank(payer: Address) -> (r: Bank)
    ensures
        r.manager == payer,
        r.total_deposit == 0,
{
    Bank { manager: payer, total_deposit: 0 }
}

/// A new, empty user record owned by `user`.
pub fn create_user_account(user: Address) -> (r: UserAccount)
    ensures
        r.authority == user,
        r.amount == 0,
{
    UserAccount { authority: user, amount: 0 }
}

} // verus!
