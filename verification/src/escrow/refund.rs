//! Refunding an escrow: the maker takes the deposit back.

use vstd::prelude::*;
use crate::account::{AccountView, TokenMove, token_account_from_view, token_account_outcome};
use crate::address::{Address, address_eq, seeds_view, spec_program_id};
use crate::bytes::le_u64_at;
use crate::program_error::ProgramError;
use crate::escrow::errors::{EscrowError, escrow_err, to_program_error};
use crate::escrow::state::{Escrow, escrow_signer_seeds};
use crate::escrow::util::{signer_check, ata_check, ata_address_check, token_account_init_if_needed,
    ata_check_outcome};
use crate::escrow::take::init_if_needed_error;

verus! {

/// The accounts of a refund.
pub struct RefundAccounts<'a> {
    pub maker: &'a AccountView,
    pub escrow: &'a AccountView,
    pub mint_a: &'a AccountView,
    pub vault_a: &'a AccountView,
    pub maker_ata_a: &'a AccountView,
    pub system_program: &'a AccountView,
    pub token_program: &'a AccountView,
}

/// A refund: its accounts, and whether the maker's first-token account has
/// to be created before the transfer.
pub struct Refund<'a> {
    pub accounts: RefundAccounts<'a>,
    pub create_maker_ata_a: bool,
}

/// Why taking a refund's accounts fails: exactly eight accounts (maker,
/// escrow, the first mint, the vault, the maker's first-token account, the
/// system and token programs, and one more); the maker signs; the vault
/// (held by the escrow) passes the token account check; the maker's account
/// passes `init_if_needed_error`.
pub open spec fn refund_accounts_error(a: Seq<AccountView>) -> Option<ProgramError> {
    if a.len() != 8 {
        Some(ProgramError::NotEnoughAccountKeys)
    } else if !a[0].is_signer {
        Some(ProgramError::MissingRequiredSignature)
    } else if ata_check_outcome(a[3], a[1], a[6], a[2].address@) is Some {
        ata_check_outcome(a[3], a[1], a[6], a[2].address@)
    } else {
        init_if_needed_error(a[4], a[0], a[6], a[2])
    }
}

/// `f` holds the refund's accounts in the order they are listed, and asks
/// for the maker's first-token account to be created exactly when it holds
/// no lamports.
pub open spec fn refund_from<'a>(f: Refund<'a>, a: Seq<AccountView>) -> bool {
    &&& *f.accounts.maker == a[0]
    &&& *f.accounts.escrow == a[1]
    &&& *f.accounts.mint_a == a[2]
    &&& *f.accounts.vault_a == a[3]
    &&& *f.accounts.maker_ata_a == a[4]
    &&& *f.accounts.system_program == a[5]
    &&& *f.accounts.token_program == a[6]
    &&& f.create_maker_ata_a == (a[4].lamports == 0)
}

/// What a refund moves: the vault's whole balance, with the seeds the escrow
/// signs with.
pub struct RefundPlan {
    pub vault_amount: u64,
    pub seeds: Vec<Vec<u8>>,
    /// The return: from the vault to the maker's first-token account, signed
    /// by the escrow, of the vault's whole balance.
    pub release: TokenMove,
    /// Where the vault's and the escrow account's lamports go when they are
    /// closed: the maker.
    pub close_to: Address,
}

/// Why a refund stops before moving anything: the escrow record, the maker
/// it names, then the vault read as a token program account.
pub open spec fn refund_plan_error<'a>(acc: RefundAccounts<'a>) -> Option<ProgramError> {
    let e = acc.escrow.data@;
    if e.len() != 113 {
        Some(ProgramError::InvalidAccountData)
    } else if acc.escrow.owner@ != spec_program_id() {
        Some(ProgramError::InvalidAccountOwner)
    } else if e.subrange(8, 40) != acc.maker.address@ {
        Some(escrow_err(EscrowError::EscrowMakerMismatch))
    } else if token_account_outcome(*acc.vault_a) is Some {
        token_account_outcome(*acc.vault_a)
    } else {
        None
    }
}

impl<'a> Refund<'a> {
    /// The instruction's tag.
    pub const DISCRIMINATOR: u8 = 2;

    /// Takes and checks the refund's accounts.
    pub fn try_from(accounts: &'a [AccountView]) -> (r: Result<Refund<'a>, ProgramError>)
        ensures
            match refund_accounts_error(accounts@) {
                Some(e) => r is Err && r->Err_0 == e,
                None => r matches Ok(f) && refund_from(f, accounts@),
            },
    {
        if accounts.len() != 8 {
            return Err(ProgramError::NotEnoughAccountKeys);
        }
        let maker = &accounts[0];
        let escrow = &accounts[1];
        let mint_a = &accounts[2];
        let vault_a = &accounts[3];
        let maker_ata_a = &accounts[4];
        let system_program = &accounts[5];
        let token_program = &accounts[6];
        signer_check(maker)?;
        ata_check(vault_a, escrow, token_program, &mint_a.address)?;
        let create_maker_ata_a = token_account_init_if_needed(maker_ata_a, maker, token_program, mint_a)?;
        if create_maker_ata_a {
            ata_address_check(maker_ata_a, maker, token_program, &mint_a.address)?;
        }
        Ok(Refund {
            accounts: RefundAccounts { maker, escrow, mint_a, vault_a, maker_ata_a, system_program,
                token_program },
            create_maker_ata_a,
        })
    }

    /// What the refund moves: the vault's whole balance goes back to the
    /// maker's first-token account, the vault is closed to the maker, then
    /// the escrow account is closed to the maker.
    pub fn plan(&self) -> (r: Result<RefundPlan, ProgramError>)
        ensures
            match refund_plan_error(self.accounts) {
                Some(e) => r is Err && r->Err_0 == e,
                None => r matches Ok(p)
                    && p.vault_amount == le_u64_at(self.accounts.vault_a.data@, 64)
                    && seeds_view(p.seeds@) == escrow_signer_seeds(self.accounts.maker.address@,
                        le_u64_at(self.accounts.escrow.data@, 0), self.accounts.escrow.data@[112])
                    && p.release == (TokenMove { from: self.accounts.vault_a.address,
                        to: self.accounts.maker_ata_a.address, authority: self.accounts.escrow.address,
                        amount: p.vault_amount })
                    && p.close_to == self.accounts.maker.address,
            },
    {
        let acc = &self.accounts;
        let escrow = Escrow::from_account_view(acc.escrow)?;
        if !address_eq(&escrow.maker, &acc.maker.address) {
            return Err(to_program_error(EscrowError::EscrowMakerMismatch));
        }
        let seeds = Escrow::signer_seeds(&acc.maker.address, escrow.seed, escrow.bump);
        let vault_amount = token_account_from_view(acc.vault_a)?.amount;
        let release = TokenMove { from: acc.vault_a.address, to: acc.maker_ata_a.address,
            authority: acc.escrow.address, amount: vault_amount };
        Ok(RefundPlan { vault_amount, seeds, release, close_to: acc.maker.address })
    }
}

} // verus!
