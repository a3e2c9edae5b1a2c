//! The accounts an instruction receives, as plain values, and the token
//! program's account layouts read from them.

use vstd::prelude::*;
use crate::address::{Address, address_eq, token_program_id, token_2022_program_id,
    spec_token_program_id, spec_token_2022_program_id};
use crate::bytes::{le_u64_at, read_array, read_u64_le};
use crate::program_error::ProgramError;

verus! {

/// An account handed to an instruction: its address, owning program,
/// balance, data and the signer and writable flags of the transaction.
#[derive(Clone, Debug)]
pub struct AccountView {
    pub address: Address,
    pub owner: Address,
    pub lamports: u64,
    pub data: Vec<u8>,
    pub is_signer: bool,
    pub is_writable: bool,
}

impl AccountView {
    /// The length of the account's data.
    pub fn data_len(&self) -> (r: usize)
        ensures
            r == self.data@.len(),
    {
        self.data.len()
    }

    /// Whether the account is owned by `program`.
    pub fn owned_by(&self, program: &Address) -> (r: bool)
        ensures
            r == (self.owner@ == program@),
    {
        address_eq(&self.owner, program)
    }

    /// Whether the account signed the transaction.
    pub fn is_signer(&self) -> (r: bool)
        ensures
            r == self.is_signer,
    {
        self.is_signer
    }

    /// Whether the account is writable in the transaction.
    pub fn is_writable(&self) -> (r: bool)
        ensures
            r == self.is_writable,
    {
        self.is_writable
    }
}

/// `pinocchio_token::state::Mint::LEN`, the length of a mint account (82).
#[verifier::external_body]
pub(crate) fn mint_len() -> (r: usize)
    ensures
        r == 82,
{
    pinocchio_token::state::Mint::LEN
}

/// `pinocchio_token::state::Account::LEN`, the length of a token account (165).
#[verifier::external_body]
pub(crate) fn token_account_len() -> (r: usize)
    ensures
        r == 165,
{
    pinocchio_token::state::Account::LEN
}

/// `pinocchio_token_2022::state::Account::BASE_LEN`, the length of a token-2022
/// account without extensions (165).
#[verifier::external_body]
pub(crate) fn token_2022_account_base_len() -> (r: usize)
    ensures
        r == 165,
{
    pinocchio_token_2022::state::Account::BASE_LEN
}

/// `pinocchio_token_2022::state::Multisig::LEN`, the length of a multisig
/// account (355).
#[verifier::external_body]
pub(crate) fn token_2022_multisig_len() -> (r: usize)
    ensures
        r == 355,
{
    pinocchio_token_2022::state::Multisig::LEN
}

/// `pinocchio_token_2022::state::Mint::BASE_LEN`, the length of a token-2022
/// mint without extensions (82).
#[verifier::external_body]
pub(crate) fn token_2022_mint_base_len() -> (r: usize)
    ensures
        r == 82,
{
    pinocchio_token_2022::state::Mint::BASE_LEN
}

/// The length of a token account: 165 bytes.
pub fn token_account_size() -> (r: usize)
    ensures
        r == 165,
{
    token_account_len()
}

/// The length of a mint: 82 bytes.
pub fn mint_size() -> (r: usize)
    ensures
        r == 82,
{
    mint_len()
}

/// The length of a token-2022 mint without extensions: 82 bytes.
pub fn token_2022_mint_size() -> (r: usize)
    ensures
        r == 82,
{
    token_2022_mint_base_len()
}

/// A token transfer an instruction asks for: from which token account to
/// which, signed by which authority, and how much.
#[derive(Clone, Copy, Debug)]
pub struct TokenMove {
    pub from: Address,
    pub to: Address,
    pub authority: Address,
    pub amount: u64,
}

/// What the programs read of a token account: its mint, its owner and its
/// balance.
#[derive(Clone, Copy, Debug)]
pub struct TokenAccountState {
    pub mint: Address,
    pub owner: Address,
    pub amount: u64,
}

/// What the programs read of a mint: its supply and its decimals.
#[derive(Clone, Copy, Debug)]
pub struct MintState {
    pub supply: u64,
    pub decimals: u8,
}

/// The fields of a token account read from its data (mint at 0, owner at
/// 32, little-endian amount at 64).
pub open spec fn token_account_fields(r: TokenAccountState, data: Seq<u8>) -> bool {
    &&& r.mint@ == data.subrange(0, 32)
    &&& r.owner@ == data.subrange(32, 64)
    &&& r.amount == le_u64_at(data, 64)
}

/// The outcome of `pinocchio_token::state::Account::from_account_view`: the
/// length must be 165, then the owner must be the token program.
pub open spec fn token_account_outcome(acc: AccountView) -> Option<ProgramError> {
    if acc.data@.len() != 165 {
        Some(ProgramError::InvalidAccountData)
    } else if acc.owner@ != spec_token_program_id() {
        Some(ProgramError::IncorrectProgramId)
    } else {
        None
    }
}

/// Reads a token account the way `pinocchio_token::state::Account::from_account_view`
/// does: length check, owner check, then the fields at their offsets.
pub fn token_account_from_view(acc: &AccountView) -> (r: Result<TokenAccountState, ProgramError>)
    ensures
        match token_account_outcome(*acc) {
            Some(e) => r == Err::<TokenAccountState, ProgramError>(e),
            None => r matches Ok(t) && token_account_fields(t, acc.data@),
        },
{
    if acc.data_len() != token_account_len() {
        return Err(ProgramError::InvalidAccountData);
    }
    let token = token_program_id();
    if !acc.owned_by(&token) {
        return Err(ProgramError::IncorrectProgramId);
    }
    let d = acc.data.as_slice();
    let mint = read_array::<32>(d, 0);
    let owner = read_array::<32>(d, 32);
    let amount = read_u64_le(d, 64);
    Ok(TokenAccountState { mint, owner, amount })
}

/// The outcome of `pinocchio_token_2022::state::Account::from_account_view`:
/// the owner must be the token-2022 program, then the data must be exactly
/// 165 bytes, or longer, not a multisig's 355, with the account-type marker
/// (2) at byte 165.
pub open spec fn token_2022_account_outcome(acc: AccountView) -> Option<ProgramError> {
    if acc.owner@ != spec_token_2022_program_id() {
        Some(ProgramError::IncorrectProgramId)
    } else if acc.data@.len() == 165 || (acc.data@.len() != 355 && acc.data@.len() > 165
        && acc.data@[165] == 2) {
        None
    } else {
        Some(ProgramError::InvalidAccountData)
    }
}

/// Reads a token-2022 account the way
/// `pinocchio_token_2022::state::Account::from_account_view` does.
pub fn token_2022_account_from_view(acc: &AccountView) -> (r: Result<TokenAccountState, ProgramError>)
    ensures
        match token_2022_account_outcome(*acc) {
            Some(e) => r == Err::<TokenAccountState, ProgramError>(e),
            None => r matches Ok(t) && token_account_fields(t, acc.data@),
        },
{
    let token = token_2022_program_id();
    if !acc.owned_by(&token) {
        return Err(ProgramError::IncorrectProgramId);
    }
    let len = acc.data_len();
    let base = token_2022_account_base_len();
    let valid = if len == base {
        true
    } else {
        len != token_2022_multisig_len() && len > base && acc.data[base] == 2
    };
    if !valid {
        return Err(ProgramError::InvalidAccountData);
    }
    let d = acc.data.as_slice();
    let mint = read_array::<32>(d, 0);
    let owner = read_array::<32>(d, 32);
    let amount = read_u64_le(d, 64);
    Ok(TokenAccountState { mint, owner, amount })
}

/// The outcome of `pinocchio_token::state::Mint::from_account_view`: the
/// length must be 82, then the owner must be the token program.
pub open spec fn mint_outcome(acc: AccountView) -> Option<ProgramError> {
    if acc.data@.len() != 82 {
        Some(ProgramError::InvalidAccountData)
    } else if acc.owner@ != spec_token_program_id() {
        Some(ProgramError::IncorrectProgramId)
    } else {
        None
    }
}

/// Reads a mint the way `pinocchio_token::state::Mint::from_account_view`
/// does: length and owner checks, then the supply (little-endian at 36) and
/// the decimals (byte 44).
pub fn mint_from_view(acc: &AccountView) -> (r: Result<MintState, ProgramError>)
    ensures
        match mint_outcome(*acc) {
            Some(e) => r == Err::<MintState, ProgramError>(e),
            None => r matches Ok(m) && m.supply == le_u64_at(acc.data@, 36)
                && m.decimals == acc.data@[44],
        },
{
    if acc.data_len() != mint_len() {
        return Err(ProgramError::InvalidAccountData);
    }
    let token = token_program_id();
    if !acc.owned_by(&token) {
        return Err(ProgramError::IncorrectProgramId);
    }
    let d = acc.data.as_slice();
    let supply = read_u64_le(d, 36);
    Ok(MintState { supply, decimals: d[44] })
}

} // verus!
