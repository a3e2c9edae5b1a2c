//! Account checks shared by the escrow's instructions.

use vstd::prelude::*;
use crate::account::{AccountView, token_account_from_view, token_2022_account_from_view,
    token_account_outcome, token_2022_account_outcome};
use crate::address::{Address, address_eq, find_program_address, program_address_search,
    program_id, spec_program_id, token_program_id, token_2022_program_id,
    associated_token_program_id, spec_token_program_id, spec_token_2022_program_id,
    spec_associated_token_program_id, spec_system_program_id};
use crate::program_error::{ProgramError, ProgramResult};
use crate::amm::helper::{ata_seeds, make_ata_seeds};
use crate::escrow::errors::{EscrowError, escrow_err, to_program_error};

verus! {

/// The associated token account of `authority` for `mint` under
/// `token_program`, where the address search finds one.
pub fn get_ata_address(authority: &Address, mint: &Address, token_program: &Address) -> (r: Option<Address>)
    ensures
        match program_address_search(ata_seeds(authority@, mint@, token_program@),
            spec_associated_token_program_id()) {
            Some((a, _)) => r matches Some(x) && x@ == a,
            None => r is None,
        },
{
    let seeds = make_ata_seeds(authority, mint, token_program);
    let ata_program = associated_token_program_id();
    match find_program_address(&seeds, &ata_program) {
        Some((a, _)) => Some(a),
        None => None,
    }
}

/// The account must be owned by this program (`PdaOwnerMismatch`) and hold
/// exactly `space` bytes (`PdaSpaceMismatch`).
pub fn program_check(pda: &AccountView, space: usize) -> (r: ProgramResult)
    ensures
        pda.owner@ != spec_program_id() ==> r == Err::<(), ProgramError>(escrow_err(EscrowError::PdaOwnerMismatch)),
        pda.owner@ == spec_program_id() && pda.data@.len() != space ==> r == Err::<(), ProgramError>(
            escrow_err(EscrowError::PdaSpaceMismatch)),
        pda.owner@ == spec_program_id() && pda.data@.len() == space ==> r is Ok,
{
    let id = program_id();
    if !pda.owned_by(&id) {
        return Err(to_program_error(EscrowError::PdaOwnerMismatch));
    }
    if pda.data_len() != space {
        return Err(to_program_error(EscrowError::PdaSpaceMismatch));
    }
    Ok(())
}

/// The outcome of checking a mint against the token program it claims: the
/// mint must be owned by that program; a token-program mint must be exactly
/// 82 bytes, a token-2022 mint at least 165; any other program is refused.
pub open spec fn escrow_mint_check_outcome(mint: AccountView, token_program: AccountView) -> Option<EscrowError> {
    if mint.owner@ != token_program.address@ {
        Some(EscrowError::MintOwnerMismatch)
    } else if token_program.address@ == spec_token_program_id() {
        if mint.data@.len() != 82 { Some(EscrowError::MintSpaceMismatch) } else { None }
    } else if token_program.address@ == spec_token_2022_program_id() {
        if mint.data@.len() < 165 { Some(EscrowError::MintSpaceMismatch) } else { None }
    } else {
        Some(EscrowError::InvalidTokenProgram)
    }
}

/// Checks a mint against the token program it is used with.
pub fn mint_check(mint: &AccountView, token_program: &AccountView) -> (r: ProgramResult)
    ensures
        match escrow_mint_check_outcome(*mint, *token_program) {
            Some(e) => r == Err::<(), ProgramError>(escrow_err(e)),
            None => r is Ok,
        },
{
    if !mint.owned_by(&token_program.address) {
        return Err(to_program_error(EscrowError::MintOwnerMismatch));
    }
    let token = token_program_id();
    let token_2022 = token_2022_program_id();
    if address_eq(&token_program.address, &token) {
        if mint.data_len() != crate::account::mint_len() {
            return Err(to_program_error(EscrowError::MintSpaceMismatch));
        }
    } else if address_eq(&token_program.address, &token_2022) {
        if mint.data_len() < crate::account::token_2022_account_base_len() {
            return Err(to_program_error(EscrowError::MintSpaceMismatch));
        }
    } else {
        return Err(to_program_error(EscrowError::InvalidTokenProgram));
    }
    Ok(())
}

/// The outcome of checking that `ata` is the associated token account of
/// `authority` for `mint` under `token_program`: a different address is
/// refused with `AtaPdaDeriveMismatch`, a failed search with `InvalidSeeds`.
pub open spec fn escrow_ata_address_outcome(ata: Seq<u8>, authority: Seq<u8>, token_program: Seq<u8>,
    mint: Seq<u8>) -> Option<ProgramError>
{
    match program_address_search(ata_seeds(authority, mint, token_program),
        spec_associated_token_program_id()) {
        Some((a, _)) => if a == ata { None } else { Some(escrow_err(EscrowError::AtaPdaDeriveMismatch)) },
        None => Some(ProgramError::InvalidSeeds),
    }
}

/// Checks that `ata_account` is the associated token account of `authority`
/// for `mint` under `token_program`.
pub fn ata_address_check(ata_account: &AccountView, authority: &AccountView,
    token_program: &AccountView, mint: &Address) -> (r: ProgramResult)
    ensures
        match escrow_ata_address_outcome(ata_account.address@, authority.address@,
            token_program.address@, mint@) {
            Some(e) => r == Err::<(), ProgramError>(e),
            None => r is Ok,
        },
{
    match get_ata_address(&authority.address, mint, &token_program.address) {
        Some(expected) => {
            if !address_eq(&expected, &ata_account.address) {
                return Err(to_program_error(EscrowError::AtaPdaDeriveMismatch));
            }
            Ok(())
        },
        None => Err(ProgramError::InvalidSeeds),
    }
}

/// The outcome of checking a token account of `authority` for `mint`: its
/// address, its owner, then its contents as read by the token program it is
/// owned by (the token program or token-2022; any other is refused with
/// `InvalidAccountData`): its mint and its owner.
pub open spec fn ata_check_outcome(ata: AccountView, authority: AccountView, token_program: AccountView,
    mint: Seq<u8>) -> Option<ProgramError>
{
    if escrow_ata_address_outcome(ata.address@, authority.address@, token_program.address@, mint) is Some {
        escrow_ata_address_outcome(ata.address@, authority.address@, token_program.address@, mint)
    } else if ata.owner@ != token_program.address@ {
        Some(escrow_err(EscrowError::AtaOwnerMismatch))
    } else if token_program.address@ == spec_token_program_id() {
        if token_account_outcome(ata) is Some {
            token_account_outcome(ata)
        } else if ata.data@.subrange(0, 32) != mint {
            Some(escrow_err(EscrowError::AtaMintMismatch))
        } else if ata.data@.subrange(32, 64) != authority.address@ {
            Some(escrow_err(EscrowError::AtaOwnerMismatch))
        } else {
            None
        }
    } else if token_program.address@ == spec_token_2022_program_id() {
        if token_2022_account_outcome(ata) is Some {
            token_2022_account_outcome(ata)
        } else if ata.data@.subrange(0, 32) != mint {
            Some(escrow_err(EscrowError::AtaMintMismatch))
        } else if ata.data@.subrange(32, 64) != authority.address@ {
            Some(escrow_err(EscrowError::AtaOwnerMismatch))
        } else {
            None
        }
    } else {
        Some(ProgramError::InvalidAccountData)
    }
}

/// Checks a token account of `authority` for `mint`.
pub fn ata_check(ata_account: &AccountView, authority: &AccountView, token_program: &AccountView,
    mint: &Address) -> (r: ProgramResult)
    ensures
        match ata_check_outcome(*ata_account, *authority, *token_program, mint@) {
            Some(e) => r == Err::<(), ProgramError>(e),
            None => r is Ok,
        },
{
    ata_address_check(ata_account, authority, token_program, mint)?;
    if !ata_account.owned_by(&token_program.address) {
        return Err(to_program_error(EscrowError::AtaOwnerMismatch));
    }
    let token = token_program_id();
    let token_2022 = token_2022_program_id();
    let state = if address_eq(&token_program.address, &token) {
        token_account_from_view(ata_account)?
    } else if address_eq(&token_program.address, &token_2022) {
        token_2022_account_from_view(ata_account)?
    } else {
        return Err(ProgramError::InvalidAccountData);
    };
    if !address_eq(&state.mint, mint) {
        return Err(to_program_error(EscrowError::AtaMintMismatch));
    }
    if !address_eq(&state.owner, &authority.address) {
        return Err(to_program_error(EscrowError::AtaOwnerMismatch));
    }
    Ok(())
}

/// Handles a token account that may not exist yet: an account without
/// lamports must be created (`Ok(true)`; the caller creates it, then checks
/// its address with `ata_address_check`), an existing one must pass
/// `ata_check` (`Ok(false)`).
pub fn token_account_init_if_needed(ata_account: &AccountView, authority: &AccountView,
    token_program: &AccountView, mint: &AccountView) -> (r: Result<bool, ProgramError>)
    ensures
        ata_account.lamports == 0 ==> r == Ok::<bool, ProgramError>(true),
        ata_account.lamports != 0 ==> match ata_check_outcome(*ata_account, *authority, *token_program,
            mint.address@) {
            Some(e) => r == Err::<bool, ProgramError>(e),
            None => r == Ok::<bool, ProgramError>(false),
        },
{
    if ata_account.lamports == 0 {
        Ok(true)
    } else {
        ata_check(ata_account, authority, token_program, &mint.address)?;
        Ok(false)
    }
}

/// A closed account: no owner (all-zero owner bytes), no lamports, no data.
pub open spec fn is_closed(a: AccountView) -> bool {
    &&& a.owner@ == spec_system_program_id()
    &&& a.lamports == 0
    &&& a.data@.len() == 0
}

/// Closes an account of this program into `destination`: an account already
/// without lamports is left as it is; one not owned by this program is
/// refused; otherwise its lamports are added to the destination's (refused
/// on overflow) and the account is closed as `AccountView::close` closes it.
pub fn close_system_account(account: &mut AccountView, destination: &mut AccountView) -> (r: ProgramResult)
    ensures
        old(account).lamports == 0 ==> r is Ok && *final(account) == *old(account)
            && *final(destination) == *old(destination),
        old(account).lamports != 0 && old(account).owner@ != spec_program_id() ==> r is Err
            && r->Err_0 == ProgramError::InvalidAccountOwner && *final(account) == *old(account)
            && *final(destination) == *old(destination),
        old(account).lamports != 0 && old(account).owner@ == spec_program_id()
            && old(account).lamports + old(destination).lamports > u64::MAX ==> r is Err
            && r->Err_0 == ProgramError::ArithmeticOverflow && *final(account) == *old(account)
            && *final(destination) == *old(destination),
        old(account).lamports != 0 && old(account).owner@ == spec_program_id()
            && old(account).lamports + old(destination).lamports <= u64::MAX ==> r is Ok
            && final(destination).lamports == old(account).lamports + old(destination).lamports
            && is_closed(*final(account))
            && final(account).address == old(account).address
            && final(destination).address == old(destination).address
            && final(destination).owner == old(destination).owner
            && final(destination).data == old(destination).data,
{
    if account.lamports == 0 {
        return Ok(());
    }
    let id = program_id();
    if !account.owned_by(&id) {
        return Err(ProgramError::InvalidAccountOwner);
    }
    let lamports = match account.lamports.checked_add(destination.lamports) {
        Some(l) => l,
        None => { return Err(ProgramError::ArithmeticOverflow); },
    };
    destination.lamports = lamports;
    account.lamports = 0;
    account.owner = [0u8; 32];
    account.data = Vec::new();
    assert(account.owner@ =~= spec_system_program_id());
    Ok(())
}

/// The account must have signed.
pub fn signer_check(signer: &AccountView) -> (r: ProgramResult)
    ensures
        r == (if signer.is_signer { Ok::<(), ProgramError>(()) } else {
            Err(ProgramError::MissingRequiredSignature) }),
{
    if !signer.is_signer() {
        return Err(ProgramError::MissingRequiredSignature);
    }
    Ok(())
}

} // verus!
