//! A lamport vault: a user deposits lamports into an account derived from
//! their address and later withdraws all of them.

use vstd::prelude::*;
use vstd::slice::slice_to_vec;
use crate::account::AccountView;
use crate::address::{Address, address_eq, seeds_view, find_program_address, program_address_search,
    program_id, spec_program_id, system_program_id, spec_system_program_id};
use crate::bytes::{le_u64_at, read_u64_le};
use crate::program_error::ProgramError;

verus! {

/// The first seed of a vault's address: `vault`.
pub open spec fn spec_vault_seed() -> Seq<u8> {
    seq![118u8, 97, 117, 108, 116]
}

/// The seeds of the vault of `authority`: `vault` and the authority.
pub open spec fn vault_seeds(authority: Seq<u8>) -> Seq<Seq<u8>> {
    seq![spec_vault_seed(), authority]
}

/// The seeds of the vault of `authority`.
pub fn make_vault_seeds(authority: &Address) -> (r: Vec<Vec<u8>>)
    ensures
        seeds_view(r@) == vault_seeds(authority@),
{
    let mut s: Vec<Vec<u8>> = Vec::new();
    let prefix = vec![118u8, 97, 117, 108, 116];
    assert(prefix@ =~= spec_vault_seed());
    s.push(prefix);
    s.push(slice_to_vec(authority.as_slice()));
    assert(seeds_view(s@) =~= vault_seeds(authority@));
    s
}

/// The address and bump of the vault of `authority`.
pub fn derive_vault_address(authority: &Address) -> (r: Option<(Address, u8)>)
    ensures
        match r {
            Some((a, b)) => program_address_search(vault_seeds(authority@), spec_program_id()) == Some((a@, b)),
            None => program_address_search(vault_seeds(authority@), spec_program_id()) is None,
        },
{
    let seeds = make_vault_seeds(authority);
    let id = program_id();
    find_program_address(&seeds, &id)
}

/// The outcome of checking that `vault` is the vault of `authority`: a
/// different address is refused with `InvalidAccountData`, a failed search
/// with `InvalidSeeds`; otherwise the vault's bump.
pub open spec fn vault_address_outcome(vault: Seq<u8>, authority: Seq<u8>) -> Result<u8, ProgramError> {
    match program_address_search(vault_seeds(authority), spec_program_id()) {
        Some((a, b)) => if a == vault { Ok(b) } else { Err(ProgramError::InvalidAccountData) },
        None => Err(ProgramError::InvalidSeeds),
    }
}

/// Checks that `vault` is the vault of `authority` and gives its bump.
pub fn check_vault_address(vault: &Address, authority: &Address) -> (r: Result<u8, ProgramError>)
    ensures
        r == vault_address_outcome(vault@, authority@),
{
    match derive_vault_address(authority) {
        Some((pda, bump)) => {
            if !address_eq(vault, &pda) {
                return Err(ProgramError::InvalidAccountData);
            }
            Ok(bump)
        },
        None => Err(ProgramError::InvalidSeeds),
    }
}

/// A deposit into a vault: the payer, the vault and the lamports.
pub struct Deposit<'a> {
    pub payer: &'a AccountView,
    pub vault: &'a AccountView,
    pub amount: u64,
}

/// Why taking a deposit fails, in the order the checks run: the data must be
/// exactly eight bytes, two accounts are needed, the amount must not be
/// zero, the payer must sign, and the vault must be empty and owned by the
/// system program.
pub open spec fn vault_deposit_error(data: Seq<u8>, accounts: Seq<AccountView>) -> Option<ProgramError> {
    if data.len() != 8 || accounts.len() < 2 || le_u64_at(data, 0) == 0 {
        Some(ProgramError::InvalidInstructionData)
    } else if !accounts[0].is_signer {
        Some(ProgramError::MissingRequiredSignature)
    } else if accounts[1].lamports != 0 {
        Some(ProgramError::InvalidAccountData)
    } else if accounts[1].owner@ != spec_system_program_id() {
        Some(ProgramError::InvalidAccountOwner)
    } else {
        None
    }
}

impl<'a> Deposit<'a> {
    /// The instruction's tag.
    pub const DISCRIMINATOR: u8 = 0;

    /// Reads the deposit's amount and takes and checks its accounts.
    pub fn try_from(instruction_data: &[u8], accounts: &'a [AccountView]) -> (r: Result<Deposit<'a>, ProgramError>)
        ensures
            match vault_deposit_error(instruction_data@, accounts@) {
                Some(e) => r is Err && r->Err_0 == e,
                None => r matches Ok(d) && d.amount == le_u64_at(instruction_data@, 0)
                    && *d.payer == accounts@[0] && *d.vault == accounts@[1],
            },
    {
        if instruction_data.len() != 8 {
            return Err(ProgramError::InvalidInstructionData);
        }
        let amount = read_u64_le(instruction_data, 0);
        if accounts.len() < 2 {
            return Err(ProgramError::InvalidInstructionData);
        }
        let payer = &accounts[0];
        let vault = &accounts[1];
        if amount == 0 {
            return Err(ProgramError::InvalidInstructionData);
        }
        if !payer.is_signer() {
            return Err(ProgramError::MissingRequiredSignature);
        }
        if vault.lamports != 0 {
            return Err(ProgramError::InvalidAccountData);
        }
        let system = system_program_id();
        if !vault.owned_by(&system) {
            return Err(ProgramError::InvalidAccountOwner);
        }
        Ok(Deposit { payer, vault, amount })
    }

    /// The check the deposit runs before moving `amount` lamports from the
    /// payer into the vault: the vault must be the payer's.
    pub fn check(&self) -> (r: Result<(), ProgramError>)
        ensures
            match vault_address_outcome(self.vault.address@, self.payer.address@) {
                Ok(_) => r is Ok,
                Err(e) => r is Err && r->Err_0 == e,
            },
    {
        check_vault_address(&self.vault.address, &self.payer.address)?;
        Ok(())
    }
}

/// A withdrawal from a vault: its authority and the vault.
pub struct Withdraw<'a> {
    pub authority: &'a AccountView,
    pub vault: &'a AccountView,
}

/// Why taking a withdrawal fails: two accounts are needed, and the vault
/// must be owned by the system program and hold lamports.
pub open spec fn vault_withdraw_error(accounts: Seq<AccountView>) -> Option<ProgramError> {
    if accounts.len() < 2 {
        Some(ProgramError::InvalidAccountData)
    } else if accounts[1].owner@ != spec_system_program_id() {
        Some(ProgramError::InvalidAccountOwner)
    } else if accounts[1].lamports == 0 {
        Some(ProgramError::InvalidAccountData)
    } else {
        None
    }
}

/// What a withdrawal moves: all the vault's lamports, signed by the vault
/// with its seeds and bump.
pub struct WithdrawPlan {
    pub lamports: u64,
    pub seeds: Vec<Vec<u8>>,
}

impl<'a> Withdraw<'a> {
    /// The instruction's tag.
    pub const DISCRIMINATOR: u8 = 1;

    /// Takes and checks the withdrawal's accounts.
    pub fn try_from(accounts: &'a [AccountView]) -> (r: Result<Withdraw<'a>, ProgramError>)
        ensures
            match vault_withdraw_error(accounts@) {
                Some(e) => r is Err && r->Err_0 == e,
                None => r matches Ok(w) && *w.authority == accounts@[0] && *w.vault == accounts@[1],
            },
    {
        if accounts.len() < 2 {
            return Err(ProgramError::InvalidAccountData);
        }
        let authority = &accounts[0];
        let vault = &accounts[1];
        let system = system_program_id();
        if !vault.owned_by(&system) {
            return Err(ProgramError::InvalidAccountOwner);
        }
        if vault.lamports == 0 {
            return Err(ProgramError::InvalidAccountData);
        }
        Ok(Withdraw { authority, vault })
    }

    /// What the withdrawal moves: the vault must be the authority's; then
    /// all its lamports go to the authority, signed with `vault`, the
    /// authority and the bump.
    pub fn plan(&self) -> (r: Result<WithdrawPlan, ProgramError>)
        ensures
            match vault_address_outcome(self.vault.address@, self.authority.address@) {
                Ok(b) => r matches Ok(p) && p.lamports == self.vault.lamports
                    && seeds_view(p.seeds@) == vault_seeds(self.authority.address@).push(seq![b]),
                Err(e) => r is Err && r->Err_0 == e,
            },
    {
        let bump = check_vault_address(&self.vault.address, &self.authority.address)?;
        let mut seeds = make_vault_seeds(&self.authority.address);
        let b = vec![bump];
        assert(b@ =~= seq![bump]);
        seeds.push(b);
        assert(seeds_view(seeds@) =~= vault_seeds(self.authority.address@).push(seq![bump]));
        Ok(WithdrawPlan { lamports: self.vault.lamports, seeds })
    }
}

/// A vault instruction with its data read and its accounts taken.
pub enum VaultInstruction<'a> {
    Deposit(Deposit<'a>),
    Withdraw(Withdraw<'a>),
}

/// The first step of processing a vault instruction: tag 0 is a deposit, 1
/// a withdrawal; any failure to take one, empty data and other tags are
/// all refused with `InvalidInstructionData`.
pub fn process_instruction<'a>(accounts: &'a [AccountView], instruction_data: &[u8])
    -> (r: Result<VaultInstruction<'a>, ProgramError>)
    ensures
        instruction_data@.len() == 0 || instruction_data@[0] > 1 ==> r is Err
            && r->Err_0 == ProgramError::InvalidInstructionData,
        instruction_data@.len() >= 1 && instruction_data@[0] == 0 ==>
            match vault_deposit_error(instruction_data@.drop_first(), accounts@) {
                Some(_) => r is Err && r->Err_0 == ProgramError::InvalidInstructionData,
                None => r matches Ok(VaultInstruction::Deposit(d))
                    && d.amount == le_u64_at(instruction_data@.drop_first(), 0)
                    && *d.payer == accounts@[0] && *d.vault == accounts@[1],
            },
        instruction_data@.len() >= 1 && instruction_data@[0] == 1 ==>
            match vault_withdraw_error(accounts@) {
                Some(_) => r is Err && r->Err_0 == ProgramError::InvalidInstructionData,
                None => r matches Ok(VaultInstruction::Withdraw(w)) && *w.authority == accounts@[0]
                    && *w.vault == accounts@[1],
            },
{
    let n = instruction_data.len();
    if n == 0 {
        return Err(ProgramError::InvalidInstructionData);
    }
    let tag = instruction_data[0];
    let data = vstd::slice::slice_subrange(instruction_data, 1, n);
    assert(data@ =~= instruction_data@.drop_first());
    if tag == Deposit::DISCRIMINATOR {
        match Deposit::try_from(data, accounts) {
            Ok(d) => Ok(VaultInstruction::Deposit(d)),
            Err(_) => Err(ProgramError::InvalidInstructionData),
        }
    } else if tag == Withdraw::DISCRIMINATOR {
        match Withdraw::try_from(accounts) {
            Ok(w) => Ok(VaultInstruction::Withdraw(w)),
            Err(_) => Err(ProgramError::InvalidInstructionData),
        }
    } else {
        Err(ProgramError::InvalidInstructionData)
    }
}

} // verus!
