//! A per-user lamport vault: a deposit opens an empty vault with more than
//! the rent-exempt minimum, a withdrawal returns everything it holds.

use vstd::prelude::*;

verus! {

/// Why a vault action is refused.
#[derive(Debug, Clone, Copy, PartialEq, Eq, Structural)]
pub enum VaulError {
    VaultAlreadyExists,
    InvalidAmount,
}

/// Checks a deposit of `amount` into a vault holding `vault_lamports`, where
/// `rent_minimum` is the rent-exempt minimum of an account without data:
/// refused with `VaultAlreadyExists` when the vault holds anything, then
/// with `InvalidAmount` unless the amount is above the minimum. On success
/// the caller moves the amount in with a system transfer.
pub fn deposit(vault_lamports: u64, rent_minimum: u64, amount: u64) -> (r: Result<(), VaulError>)
    ensures
        vault_lamports != 0 ==> r == Err::<(), VaulError>(VaulError::VaultAlreadyExists),
        vault_lamports == 0 && amount <= rent_minimum ==> r == Err::<(), VaulError>(VaulError::InvalidAmount),
        vault_lamports == 0 && amount > rent_minimum ==> r is Ok,
{
    if vault_lamports != 0 {
        Err(VaulError::VaultAlreadyExists)
    } else if amount <= rent_minimum {
        Err(VaulError::InvalidAmount)
    } else {
        Ok(())
    }
}

/// The amount a withdrawal moves back to the owner: everything the vault
/// holds; refused with `InvalidAmount` when it holds nothing.
pub fn withdraw(vault_lamports: u64) -> (r: Result<u64, VaulError>)
    ensures
        vault_lamports == 0 ==> r == Err::<u64, VaulError>(VaulError::InvalidAmount),
        vault_lamports != 0 ==> r == Ok::<u64, VaulError>(vault_lamports),
{
    if vault_lamports == 0 {
        Err(VaulError::InvalidAmount)
    } else {
        Ok(vault_lamports)
    }
}

} // verus!
