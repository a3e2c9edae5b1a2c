//! The framework version of the token escrow: the maker records an offer
//! and deposits tokens in a vault; a refund sends the vault's tokens back.

use vstd::prelude::*;
use crate::address::{Address, address_eq};

verus! {

/// An offer: its seed, the maker, the deposited and the wanted mints, the
/// amount wanted and the bump of the offer's address.
#[derive(Debug, Clone, Copy)]
pub struct Escrow {
    pub seed: u64,
    pub maker: Address,
    pub mint_a: Address,
    pub mint_b: Address,
    pub receive: u64,
    pub bump: u8,
}

/// Why an offer is refused.
#[derive(Debug, Clone, Copy, PartialEq, Eq, Structural)]
pub enum EscrowError {
    InvalidAmount,
    InvalidMaker,
    InvalidMintA,
}

/// The instruction handler: records the offer and returns the number of
/// tokens the caller then moves from the maker into the vault. Refused with
/// `InvalidAmount` when the amount wanted is zero.
pub fn handler(seed: u64, deposit: u64, receive: u64, maker: Address, mint_a: Address, mint_b: Address,
    bump: u8) -> (r: Result<(Escrow, u64), EscrowError>)
    ensures
        receive == 0 ==> r == Err::<(Escrow, u64), EscrowError>(EscrowError::InvalidAmount),
        receive > 0 ==> r == Ok::<(Escrow, u64), EscrowError>(
            (Escrow { seed, maker, mint_a, mint_b, receive, bump }, deposit)),
{
    if receive == 0 {
        return Err(EscrowError::InvalidAmount);
    }
    Ok((Escrow { seed, maker, mint_a, mint_b, receive, bump }, deposit))
}

/// The instruction as the program exposes it, whose arguments are
/// `(seed, receive, amount)`: it hands them to `handler` in that order, so
/// `receive` is what is deposited and `amount` is what is wanted.
pub fn make(seed: u64, receive: u64, amount: u64, maker: Address, mint_a: Address, mint_b: Address,
    bump: u8) -> (r: Result<(Escrow, u64), EscrowError>)
    ensures
        amount == 0 ==> r == Err::<(Escrow, u64), EscrowError>(EscrowError::InvalidAmount),
        amount > 0 ==> r == Ok::<(Escrow, u64), EscrowError>(
            (Escrow { seed, maker, mint_a, mint_b, receive: amount, bump }, receive)),
{
    handler(seed, receive, amount, maker, mint_a, mint_b, bump)
}

/// Checks a refund signed by `maker` of the offer in `escrow`, whose vault
/// holds `vault_amount` tokens of `mint_a`: refused with `InvalidMaker`
/// when the signer is not the offer's maker, then with `InvalidMintA` when
/// the mint is not the deposited one. On success the result is the number
/// of tokens sent back to the maker, all the vault holds; the caller then
/// closes the vault and the offer.
pub fn refund(escrow: &Escrow, maker: &Address, mint_a: &Address, vault_amount: u64) -> (r: Result<u64, EscrowError>)
    ensures
        escrow.maker@ != maker@ ==> r == Err::<u64, EscrowError>(EscrowError::InvalidMaker),
        escrow.maker@ == maker@ && escrow.mint_a@ != mint_a@ ==> r == Err::<u64, EscrowError>(EscrowError::InvalidMintA),
        escrow.maker@ == maker@ && escrow.mint_a@ == mint_a@ ==> r == Ok::<u64, EscrowError>(vault_amount),
{
    if !address_eq(&escrow.maker, maker) {
        return Err(EscrowError::InvalidMaker);
    }
    if !address_eq(&escrow.mint_a, mint_a) {
        return Err(EscrowError::InvalidMintA);
    }
    Ok(vault_amount)
}

} // verus!
