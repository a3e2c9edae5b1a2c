//! The accounts of a flash loan: the borrower, the protocol's account and
//! its token account for the lent mint, the borrower's token account and
//! the instructions sysvar the loan inspects, checked as the framework
//! checks the declared constraints.

use vstd::prelude::*;
use crate::account::AccountView;
use crate::address::{Address, address_eq, find_program_address, program_address_search, seeds_view,
    token_program_id, spec_token_program_id, system_program_id, spec_system_program_id};
use crate::amm::helper::ata_seeds;
use crate::escrow::util::get_ata_address;
use crate::address::spec_associated_token_program_id;

verus! {

/// The bytes of the flash-loan program's address
/// (`2zdW2PReARyVmUrKk7dKSmoumf2fkTPAcawEUuU4KHPA`).
pub open spec fn spec_flash_loan_program_id() -> Seq<u8> {
    seq![29u8, 159, 16, 110, 214, 235, 29, 106, 15, 230, 54, 12, 26, 250, 176, 170,
         237, 237, 244, 43, 113, 1, 225, 38, 153, 207, 143, 43, 61, 4, 178, 165]
}

/// `solana_address::Address::from_str_const` applied to the flash-loan
/// program's base-58 address; the contract claims the 32 decoded bytes.
#[verifier::external_body]
pub(crate) fn flash_loan_program_id() -> (r: Address)
    ensures
        r@ == spec_flash_loan_program_id(),
{
    solana_address::Address::from_str_const("2zdW2PReARyVmUrKk7dKSmoumf2fkTPAcawEUuU4KHPA").to_bytes()
}

/// The bytes of the instructions sysvar's address
/// (`Sysvar1nstructions1111111111111111111111111`).
pub open spec fn spec_instructions_sysvar_id() -> Seq<u8> {
    seq![6u8, 167, 213, 23, 24, 123, 209, 102, 53, 218, 212, 4, 85, 253, 194, 192,
         193, 36, 198, 143, 33, 86, 117, 165, 219, 186, 203, 95, 8, 0, 0, 0]
}

/// `pinocchio::sysvars::instructions::INSTRUCTIONS_ID`; the contract claims
/// its 32 bytes.
#[verifier::external_body]
pub(crate) fn instructions_sysvar_id() -> (r: Address)
    ensures
        r@ == spec_instructions_sysvar_id(),
{
    pinocchio::sysvars::instructions::INSTRUCTIONS_ID.to_bytes()
}

/// The seeds of the protocol's account: `"protocol"`.
pub open spec fn protocol_seeds() -> Seq<Seq<u8>> {
    seq![seq![112u8, 114, 111, 116, 111, 99, 111, 108]]
}

/// The framework's refusal of the loan's accounts.
#[derive(Debug, Clone, Copy, PartialEq, Eq, Structural)]
pub enum LoanError {
    AccountNotEnoughKeys,
    AccountNotSigner,
    ConstraintMut,
    AccountNotSystemOwned,
    ConstraintSeeds,
    AccountOwnedByWrongProgram,
    ConstraintAssociated,
    ConstraintAddress,
    InvalidProgramId,
}

/// The loan's accounts, in the order the instruction lists them.
#[derive(Debug, Clone, Copy)]
pub struct Loan<'a> {
    pub borrower: &'a AccountView,
    pub protocol: &'a AccountView,
    pub mint: &'a AccountView,
    pub borrower_ata: &'a AccountView,
    pub protocol_ata: &'a AccountView,
    pub instructions: &'a AccountView,
    pub token_program: &'a AccountView,
    pub associated_token_program: &'a AccountView,
    pub system_program: &'a AccountView,
}

/// The outcome of checking the protocol's account: owned by the system
/// program, at the address derived from `"protocol"` under the program.
pub open spec fn protocol_outcome(protocol: AccountView) -> Option<LoanError> {
    if protocol.owner@ != spec_system_program_id() {
        Some(LoanError::AccountNotSystemOwned)
    } else {
        match program_address_search(protocol_seeds(), spec_flash_loan_program_id()) {
            Some((a, _)) => if a == protocol.address@ { None } else { Some(LoanError::ConstraintSeeds) },
            None => Some(LoanError::ConstraintSeeds),
        }
    }
}

/// The outcome of checking the listed accounts, in the order of the fields:
/// at least nine accounts; the borrower signs and is writable; the protocol
/// account (see `protocol_outcome`); the mint is owned by the token program;
/// the protocol's token account is writable and is the associated token
/// account of the protocol for the mint; the sysvar is the instructions
/// sysvar; the token program is the token program.
pub open spec fn loan_outcome(accounts: Seq<AccountView>) -> Option<LoanError> {
    if accounts.len() < 9 {
        Some(LoanError::AccountNotEnoughKeys)
    } else {
        let borrower = accounts[0];
        let protocol = accounts[1];
        let mint = accounts[2];
        let protocol_ata = accounts[4];
        if !borrower.is_signer {
            Some(LoanError::AccountNotSigner)
        } else if !borrower.is_writable {
            Some(LoanError::ConstraintMut)
        } else if protocol_outcome(protocol) is Some {
            protocol_outcome(protocol)
        } else if mint.owner@ != spec_token_program_id() {
            Some(LoanError::AccountOwnedByWrongProgram)
        } else if !protocol_ata.is_writable {
            Some(LoanError::ConstraintMut)
        } else if !(match program_address_search(ata_seeds(protocol.address@, mint.address@, spec_token_program_id()),
            spec_associated_token_program_id()) {
            Some((a, _)) => a == protocol_ata.address@,
            None => false,
        }) {
            Some(LoanError::ConstraintAssociated)
        } else if accounts[5].address@ != spec_instructions_sysvar_id() {
            Some(LoanError::ConstraintAddress)
        } else if accounts[6].address@ != spec_token_program_id() {
            Some(LoanError::InvalidProgramId)
        } else {
            None
        }
    }
}

impl<'a> Loan<'a> {
    /// Checks the listed accounts (see `loan_outcome`) and names them.
    pub fn try_from(accounts: &'a [AccountView]) -> (r: Result<Loan<'a>, LoanError>)
        ensures
            match loan_outcome(accounts@) {
                Some(e) => r == Err::<Loan<'a>, LoanError>(e),
                None => r matches Ok(l) && *l.borrower == accounts@[0] && *l.protocol == accounts@[1]
                    && *l.mint == accounts@[2] && *l.borrower_ata == accounts@[3]
                    && *l.protocol_ata == accounts@[4] && *l.instructions == accounts@[5]
                    && *l.token_program == accounts@[6] && *l.associated_token_program == accounts@[7]
                    && *l.system_program == accounts@[8],
            },
    {
        if accounts.len() < 9 {
            return Err(LoanError::AccountNotEnoughKeys);
        }
        let borrower = &accounts[0];
        let protocol = &accounts[1];
        let mint = &accounts[2];
        let protocol_ata = &accounts[4];
        if !borrower.is_signer {
            return Err(LoanError::AccountNotSigner);
        }
        if !borrower.is_writable {
            return Err(LoanError::ConstraintMut);
        }
        let system = system_program_id();
        if !address_eq(&protocol.owner, &system) {
            return Err(LoanError::AccountNotSystemOwned);
        }
        let mut seeds: Vec<Vec<u8>> = Vec::new();
        seeds.push(vec![112u8, 114, 111, 116, 111, 99, 111, 108]);
        assert(seeds_view(seeds@) =~= protocol_seeds());
        let program = flash_loan_program_id();
        match find_program_address(&seeds, &program) {
            Some((a, _)) => {
                if !address_eq(&a, &protocol.address) {
                    return Err(LoanError::ConstraintSeeds);
                }
            },
            None => { return Err(LoanError::ConstraintSeeds); },
        }
        let token = token_program_id();
        if !address_eq(&mint.owner, &token) {
            return Err(LoanError::AccountOwnedByWrongProgram);
        }
        if !protocol_ata.is_writable {
            return Err(LoanError::ConstraintMut);
        }
        match get_ata_address(&protocol.address, &mint.address, &token) {
            Some(a) => {
                if !address_eq(&a, &protocol_ata.address) {
                    return Err(LoanError::ConstraintAssociated);
                }
            },
            None => { return Err(LoanError::ConstraintAssociated); },
        }
        let sysvar = instructions_sysvar_id();
        if !address_eq(&accounts[5].address, &sysvar) {
            return Err(LoanError::ConstraintAddress);
        }
        if !address_eq(&accounts[6].address, &token) {
            return Err(LoanError::InvalidProgramId);
        }
        Ok(Loan {
            borrower: &accounts[0],
            protocol: &accounts[1],
            mint: &accounts[2],
            borrower_ata: &accounts[3],
            protocol_ata: &accounts[4],
            instructions: &accounts[5],
            token_program: &accounts[6],
            associated_token_program: &accounts[7],
            system_program: &accounts[8],
        })
    }
}

} // verus!
