//! Minting lessons: a mint derived from its creator and a name that mints
//! a fixed first supply, and non-transferable credentials issued one at a
//! time by the mint's authority.

use vstd::prelude::*;
use vstd::slice::slice_to_vec;
use vstd::string::StringSliceAdditionalSpecFns;
use crate::address::{Address, address_eq};
use crate::address::seeds_view;

verus! {

/// The tokens (in base units) minted to the creator of a new mint.
pub const MINT_AMOUNT: u64 = 100_000_000_000;

/// The seeds of the mint created by `signer` under `token_name`: the
/// signer's address, then the UTF-8 bytes of the name.
pub fn mint_seeds(signer: &Address, token_name: &str) -> (r: Vec<Vec<u8>>)
    ensures
        seeds_view(r@) == seq![signer@, token_name.spec_bytes()],
{
    let mut s: Vec<Vec<u8>> = Vec::new();
    s.push(slice_to_vec(signer.as_slice()));
    s.push(slice_to_vec(token_name.as_bytes()));
    assert(seeds_view(s@) =~= seq![signer@, token_name.spec_bytes()]);
    s
}

/// The amount `create_and_mint_token` mints into the creator's token
/// account.
pub fn create_and_mint_token() -> (r: u64)
    ensures
        r == MINT_AMOUNT,
{
    MINT_AMOUNT
}

/// Why a credential is not issued.
#[derive(Debug, Clone, Copy, PartialEq, Eq, Structural)]
pub enum ErrorCodes {
    InvalidMintAuthority,
}

/// The number of credential tokens issued to the recipient when `authority`
/// signs for a mint whose mint authority is `mint_authority`: one, or
/// `InvalidMintAuthority` when the signer is not that authority. A mint
/// without an authority makes the instruction's unwrap fail, so it is left out.
pub fn issue_credential(mint_authority: Option<Address>, authority: &Address) -> (r: Result<u64, ErrorCodes>)
    requires
        mint_authority is Some,
    ensures
        mint_authority->Some_0@ == authority@ ==> r == Ok::<u64, ErrorCodes>(1),
        mint_authority->Some_0@ != authority@ ==> r == Err::<u64, ErrorCodes>(ErrorCodes::InvalidMintAuthority),
{
    let a = mint_authority.unwrap();
    if address_eq(&a, authority) {
        Ok(1)
    } else {
        Err(ErrorCodes::InvalidMintAuthority)
    }
}

} // verus!
