//! Account checks shared by the market maker's instructions.

use vstd::prelude::*;
use crate::account::AccountView;
use vstd::slice::slice_to_vec;
use crate::address::{Address, address_eq, find_program_address, program_address_search,
    seeds_view, program_id, spec_program_id, token_program_id, token_2022_program_id,
    associated_token_program_id, spec_token_program_id, spec_token_2022_program_id,
    spec_associated_token_program_id};
use crate::program_error::{ProgramError, ProgramResult};
use crate::amm::errors::{CustomError, custom, to_program_error};

verus! {

/// The outcome of loading an account's data as a record of `size` bytes:
/// the data must have exactly that length, and the account must not be owned
/// by this program (the check is written this way round).
pub open spec fn load_outcome(account: AccountView, size: nat) -> Option<ProgramError> {
    if account.data@.len() != size {
        Some(ProgramError::InvalidAccountData)
    } else if account.owner@ == spec_program_id() {
        Some(ProgramError::InvalidAccountOwner)
    } else {
        None
    }
}

/// Checks an account before its data is read as a record of `size` bytes,
/// and hands out the data.
pub fn load(account: &AccountView, size: usize) -> (r: Result<&[u8], ProgramError>)
    ensures
        match load_outcome(*account, size as nat) {
            Some(e) => r == Err::<&[u8], ProgramError>(e),
            None => r matches Ok(d) && d@ == account.data@,
        },
{
    if size != account.data_len() {
        return Err(ProgramError::InvalidAccountData);
    }
    let id = program_id();
    if account.owned_by(&id) {
        return Err(ProgramError::InvalidAccountOwner);
    }
    Ok(account.data.as_slice())
}

/// Checks an account before its data is written as a record of `size`
/// bytes: the same checks as `load`.
pub fn load_mut(account: &AccountView, size: usize) -> (r: ProgramResult)
    ensures
        match load_outcome(*account, size as nat) {
            Some(e) => r == Err::<(), ProgramError>(e),
            None => r is Ok,
        },
{
    match load(account, size) {
        Ok(_) => Ok(()),
        Err(e) => Err(e),
    }
}

/// The account must have signed.
pub fn check_signer(account: &AccountView) -> (r: ProgramResult)
    ensures
        r == (if account.is_signer { Ok::<(), ProgramError>(()) } else {
            Err(ProgramError::MissingRequiredSignature) }),
{
    if !account.is_signer() {
        return Err(ProgramError::MissingRequiredSignature);
    }
    Ok(())
}

/// The outcome of checking a mint against the token program it claims: the
/// mint must be owned by that program; a token-program mint must be exactly
/// 82 bytes, a token-2022 mint at least 165; any other program is refused.
pub open spec fn mint_check_outcome(mint: AccountView, token_program: AccountView) -> Option<CustomError> {
    if mint.owner@ != token_program.address@ {
        Some(CustomError::MintOwnerMismatch)
    } else if token_program.address@ == spec_token_program_id() {
        if mint.data@.len() != 82 { Some(CustomError::MintSpaceMismatch) } else { None }
    } else if token_program.address@ == spec_token_2022_program_id() {
        if mint.data@.len() < 165 { Some(CustomError::MintSpaceMismatch) } else { None }
    } else {
        Some(CustomError::InvalidTokenProgram)
    }
}

/// Checks a mint against the token program it is used with.
pub fn mint_check_by_token_program(mint: &AccountView, token_program: &AccountView) -> (r: ProgramResult)
    ensures
        match mint_check_outcome(*mint, *token_program) {
            Some(e) => r == Err::<(), ProgramError>(custom(e)),
            None => r is Ok,
        },
{
    if !mint.owned_by(&token_program.address) {
        return Err(to_program_error(CustomError::MintOwnerMismatch));
    }
    let token = token_program_id();
    let token_2022 = token_2022_program_id();
    if address_eq(&token_program.address, &token) {
        if mint.data_len() != crate::account::mint_len() {
            return Err(to_program_error(CustomError::MintSpaceMismatch));
        }
    } else if address_eq(&token_program.address, &token_2022) {
        if mint.data_len() < crate::account::token_2022_account_base_len() {
            return Err(to_program_error(CustomError::MintSpaceMismatch));
        }
    } else {
        return Err(to_program_error(CustomError::InvalidTokenProgram));
    }
    Ok(())
}

/// The seeds of an associated token account: wallet, token program, mint.
pub open spec fn ata_seeds(authority: Seq<u8>, mint: Seq<u8>, token_program: Seq<u8>) -> Seq<Seq<u8>> {
    seq![authority, token_program, mint]
}

/// Builds the seeds of an associated token account.
pub fn make_ata_seeds(authority: &Address, mint: &Address, token_program: &Address) -> (r: Vec<Vec<u8>>)
    ensures
        seeds_view(r@) == ata_seeds(authority@, mint@, token_program@),
{
    let mut s: Vec<Vec<u8>> = Vec::new();
    s.push(slice_to_vec(authority.as_slice()));
    s.push(slice_to_vec(token_program.as_slice()));
    s.push(slice_to_vec(mint.as_slice()));
    assert(seeds_view(s@) =~= ata_seeds(authority@, mint@, token_program@));
    s
}

/// The outcome of checking that `ata` is the associated token account of
/// `authority` for `mint` under `token_program`: the search for the address
/// must succeed (it is refused with `InvalidSeeds` where it finds none) and
/// give `ata`.
pub open spec fn ata_address_outcome(ata: Seq<u8>, authority: Seq<u8>, mint: Seq<u8>,
    token_program: Seq<u8>) -> Option<ProgramError>
{
    match program_address_search(ata_seeds(authority, mint, token_program),
        spec_associated_token_program_id()) {
        Some((a, _)) => if a == ata { None } else { Some(ProgramError::InvalidAccountData) },
        None => Some(ProgramError::InvalidSeeds),
    }
}

/// Checks that `ata_address` is the associated token account of `authority`
/// for `mint_address` under `token_program`.
pub fn ata_address_check(ata_address: &Address, authority: &Address, mint_address: &Address,
    token_program: &Address) -> (r: ProgramResult)
    ensures
        match ata_address_outcome(ata_address@, authority@, mint_address@, token_program@) {
            Some(e) => r == Err::<(), ProgramError>(e),
            None => r is Ok,
        },
{
    let seeds = make_ata_seeds(authority, mint_address, token_program);
    let ata_program = associated_token_program_id();
    match find_program_address(&seeds, &ata_program) {
        Some((expected, _bump)) => {
            if !address_eq(ata_address, &expected) {
                return Err(ProgramError::InvalidAccountData);
            }
            Ok(())
        },
        None => Err(ProgramError::InvalidSeeds),
    }
}

} // verus!
