//! Taking an escrow: the taker pays the amount wanted and receives the
//! deposit.

use vstd::prelude::*;
use crate::account::{AccountView, TokenMove, token_account_from_view, mint_from_view, token_account_outcome,
    mint_outcome};
use crate::address::{Address, address_eq, seeds_view, spec_program_id};
use crate::bytes::{le_u64_at, u64_le, lemma_u64_le_roundtrip};
use crate::program_error::ProgramError;
use crate::escrow::errors::{EscrowError, escrow_err, to_program_error};
use crate::escrow::state::{Escrow, escrow_signer_seeds};
use crate::escrow::util::{signer_check, program_check, mint_check, ata_check, ata_address_check,
    token_account_init_if_needed, escrow_mint_check_outcome, ata_check_outcome,
    escrow_ata_address_outcome};

verus! {

/// The accounts of a take.
pub struct TakeAccounts<'a> {
    pub taker: &'a AccountView,
    pub maker: &'a AccountView,
    pub escrow: &'a AccountView,
    pub mint_a: &'a AccountView,
    pub mint_b: &'a AccountView,
    pub vault_a: &'a AccountView,
    pub taker_ata_a: &'a AccountView,
    pub taker_ata_b: &'a AccountView,
    pub maker_ata_b: &'a AccountView,
    pub system_program: &'a AccountView,
    pub token_program: &'a AccountView,
}

/// A take: its accounts, and which of the two receiving token accounts
/// (the taker's for the first token, the maker's for the second) have to be
/// created before the transfers.
pub struct Take<'a> {
    pub accounts: TakeAccounts<'a>,
    pub create_taker_ata_a: bool,
    pub create_maker_ata_b: bool,
}

/// The check of a receiving token account that may have to be created: one
/// without lamports is created and then its address is checked; an existing
/// one passes the whole token account check.
pub open spec fn init_if_needed_error(ata: AccountView, authority: AccountView, token_program: AccountView,
    mint: AccountView) -> Option<ProgramError>
{
    if ata.lamports == 0 {
        escrow_ata_address_outcome(ata.address@, authority.address@, token_program.address@, mint.address@)
    } else {
        ata_check_outcome(ata, authority, token_program, mint.address@)
    }
}

/// `t` holds the take's accounts in the order they are listed, and asks
/// for each receiving token account to be created exactly when it holds no
/// lamports.
pub open spec fn take_from<'a>(t: Take<'a>, a: Seq<AccountView>) -> bool {
    &&& *t.accounts.taker == a[0]
    &&& *t.accounts.maker == a[1]
    &&& *t.accounts.escrow == a[2]
    &&& *t.accounts.mint_a == a[3]
    &&& *t.accounts.mint_b == a[4]
    &&& *t.accounts.vault_a == a[5]
    &&& *t.accounts.taker_ata_a == a[6]
    &&& *t.accounts.taker_ata_b == a[7]
    &&& *t.accounts.maker_ata_b == a[8]
    &&& *t.accounts.system_program == a[9]
    &&& *t.accounts.token_program == a[10]
    &&& t.create_taker_ata_a == (a[6].lamports == 0)
    &&& t.create_maker_ata_b == (a[8].lamports == 0)
}

/// Why taking a take's accounts fails, in the order the checks run: exactly
/// twelve accounts (taker, maker, escrow, both mints, the vault, the taker's
/// two token accounts, the maker's second-token account, the system and
/// token programs, and one more); the taker signs; the escrow is this
/// program's 113-byte account; both mints pass the mint check; the taker's
/// second-token account and the vault (held by the escrow) pass the token
/// account check; the two receiving accounts pass `init_if_needed_error`.
pub open spec fn take_accounts_error(a: Seq<AccountView>) -> Option<ProgramError> {
    if a.len() != 12 {
        Some(ProgramError::NotEnoughAccountKeys)
    } else if !a[0].is_signer {
        Some(ProgramError::MissingRequiredSignature)
    } else if a[2].owner@ != spec_program_id() {
        Some(escrow_err(EscrowError::PdaOwnerMismatch))
    } else if a[2].data@.len() != 113 {
        Some(escrow_err(EscrowError::PdaSpaceMismatch))
    } else if escrow_mint_check_outcome(a[3], a[10]) is Some {
        Some(escrow_err(escrow_mint_check_outcome(a[3], a[10])->Some_0))
    } else if escrow_mint_check_outcome(a[4], a[10]) is Some {
        Some(escrow_err(escrow_mint_check_outcome(a[4], a[10])->Some_0))
    } else if ata_check_outcome(a[7], a[0], a[10], a[4].address@) is Some {
        ata_check_outcome(a[7], a[0], a[10], a[4].address@)
    } else if ata_check_outcome(a[5], a[2], a[10], a[3].address@) is Some {
        ata_check_outcome(a[5], a[2], a[10], a[3].address@)
    } else if init_if_needed_error(a[6], a[0], a[10], a[3]) is Some {
        init_if_needed_error(a[6], a[0], a[10], a[3])
    } else {
        init_if_needed_error(a[8], a[1], a[10], a[4])
    }
}

/// What a take moves: the amount wanted (and the decimals of its mint), the
/// whole vault (and the decimals of its mint), and the seeds the escrow
/// signs the vault's transfer and closing with.
pub struct TakePlan {
    pub receive: u64,
    pub decimals_b: u8,
    pub vault_amount: u64,
    pub decimals_a: u8,
    pub seeds: Vec<Vec<u8>>,
    /// The taker's payment: from the taker's second-token account to the
    /// maker's, signed by the taker, of the amount wanted.
    pub payment: TokenMove,
    /// The release: from the vault to the taker's first-token account,
    /// signed by the escrow, of the vault's whole balance.
    pub release: TokenMove,
    /// Where the vault's and the escrow account's lamports go when they are
    /// closed: the maker.
    pub close_to: Address,
}

/// Why a take stops before moving anything: the escrow record, the maker
/// and mints it names, then the two mints and the vault read as token
/// program accounts.
pub open spec fn take_plan_error<'a>(acc: TakeAccounts<'a>) -> Option<ProgramError> {
    let e = acc.escrow.data@;
    if e.len() != 113 {
        Some(ProgramError::InvalidAccountData)
    } else if acc.escrow.owner@ != spec_program_id() {
        Some(ProgramError::InvalidAccountOwner)
    } else if e.subrange(8, 40) != acc.maker.address@ {
        Some(escrow_err(EscrowError::EscrowMakerMismatch))
    } else if e.subrange(40, 72) != acc.mint_a.address@ {
        Some(escrow_err(EscrowError::EscrowMintAMismatch))
    } else if e.subrange(72, 104) != acc.mint_b.address@ {
        Some(escrow_err(EscrowError::EscrowMintBMismatch))
    } else if mint_outcome(*acc.mint_b) is Some {
        mint_outcome(*acc.mint_b)
    } else if mint_outcome(*acc.mint_a) is Some {
        mint_outcome(*acc.mint_a)
    } else if token_account_outcome(*acc.vault_a) is Some {
        token_account_outcome(*acc.vault_a)
    } else {
        None
    }
}

impl<'a> Take<'a> {
    /// The instruction's tag.
    pub const DISCRIMINATOR: u8 = 1;

    /// Takes and checks the take's accounts.
    pub fn try_from(accounts: &'a [AccountView]) -> (r: Result<Take<'a>, ProgramError>)
        ensures
            match take_accounts_error(accounts@) {
                Some(e) => r is Err && r->Err_0 == e,
                None => r matches Ok(t) && take_from(t, accounts@),
            },
    {
        if accounts.len() != 12 {
            return Err(ProgramError::NotEnoughAccountKeys);
        }
        let taker = &accounts[0];
        let maker = &accounts[1];
        let escrow = &accounts[2];
        let mint_a = &accounts[3];
        let mint_b = &accounts[4];
        let vault_a = &accounts[5];
        let taker_ata_a = &accounts[6];
        let taker_ata_b = &accounts[7];
        let maker_ata_b = &accounts[8];
        let system_program = &accounts[9];
        let token_program = &accounts[10];
        signer_check(taker)?;
        program_check(escrow, Escrow::SIZE)?;
        mint_check(mint_a, token_program)?;
        mint_check(mint_b, token_program)?;
        ata_check(taker_ata_b, taker, token_program, &mint_b.address)?;
        ata_check(vault_a, escrow, token_program, &mint_a.address)?;
        let create_taker_ata_a = token_account_init_if_needed(taker_ata_a, taker, token_program, mint_a)?;
        if create_taker_ata_a {
            ata_address_check(taker_ata_a, taker, token_program, &mint_a.address)?;
        }
        let create_maker_ata_b = token_account_init_if_needed(maker_ata_b, maker, token_program, mint_b)?;
        if create_maker_ata_b {
            ata_address_check(maker_ata_b, maker, token_program, &mint_b.address)?;
        }
        Ok(Take {
            accounts: TakeAccounts { taker, maker, escrow, mint_a, mint_b, vault_a, taker_ata_a,
                taker_ata_b, maker_ata_b, system_program, token_program },
            create_taker_ata_a,
            create_maker_ata_b,
        })
    }

    /// What the take moves: the taker pays the amount the escrow wants from
    /// their second-token account to the maker's, the vault's whole balance
    /// goes to the taker's first-token account, the vault is closed to the
    /// maker, then the escrow account is closed to the maker.
    pub fn plan(&self) -> (r: Result<TakePlan, ProgramError>)
        ensures
            match take_plan_error(self.accounts) {
                Some(e) => r is Err && r->Err_0 == e,
                None => r matches Ok(p)
                    && p.receive == le_u64_at(self.accounts.escrow.data@, 104)
                    && p.decimals_b == self.accounts.mint_b.data@[44]
                    && p.decimals_a == self.accounts.mint_a.data@[44]
                    && p.vault_amount == le_u64_at(self.accounts.vault_a.data@, 64)
                    && seeds_view(p.seeds@) == escrow_signer_seeds(self.accounts.maker.address@,
                        le_u64_at(self.accounts.escrow.data@, 0), self.accounts.escrow.data@[112])
                    && p.payment == (TokenMove { from: self.accounts.taker_ata_b.address,
                        to: self.accounts.maker_ata_b.address, authority: self.accounts.taker.address,
                        amount: p.receive })
                    && p.release == (TokenMove { from: self.accounts.vault_a.address,
                        to: self.accounts.taker_ata_a.address, authority: self.accounts.escrow.address,
                        amount: p.vault_amount })
                    && p.close_to == self.accounts.maker.address,
            },
    {
        let acc = &self.accounts;
        let escrow = Escrow::from_account_view(acc.escrow)?;
        if !address_eq(&escrow.maker, &acc.maker.address) {
            return Err(to_program_error(EscrowError::EscrowMakerMismatch));
        }
        if !address_eq(&escrow.mint_a, &acc.mint_a.address) {
            return Err(to_program_error(EscrowError::EscrowMintAMismatch));
        }
        if !address_eq(&escrow.mint_b, &acc.mint_b.address) {
            return Err(to_program_error(EscrowError::EscrowMintBMismatch));
        }
        let decimals_b = mint_from_view(acc.mint_b)?.decimals;
        let decimals_a = mint_from_view(acc.mint_a)?.decimals;
        let vault_amount = token_account_from_view(acc.vault_a)?.amount;
        let seeds = Escrow::signer_seeds(&acc.maker.address, escrow.seed, escrow.bump);
        let payment = TokenMove { from: acc.taker_ata_b.address, to: acc.maker_ata_b.address,
            authority: acc.taker.address, amount: escrow.receive };
        let release = TokenMove { from: acc.vault_a.address, to: acc.taker_ata_a.address,
            authority: acc.escrow.address, amount: vault_amount };
        Ok(TakePlan { receive: escrow.receive, decimals_b, vault_amount, decimals_a, seeds, payment, release,
            close_to: acc.maker.address })
    }
}

/// A take of an escrow that an opening recorded reads back what was
/// recorded: the maker and both mints it checks against, the amount it
/// makes the taker pay, and the seeds it signs with, which are those the
/// escrow's address was derived from at the opening, with its bump.
pub proof fn lemma_take_reads_recorded_escrow(e: Escrow)
    ensures
        e.spec_bytes().len() == 113,
        e.spec_bytes().subrange(8, 40) == e.maker@,
        e.spec_bytes().subrange(40, 72) == e.mint_a@,
        e.spec_bytes().subrange(72, 104) == e.mint_b@,
        le_u64_at(e.spec_bytes(), 104) == e.receive,
        escrow_signer_seeds(e.maker@, le_u64_at(e.spec_bytes(), 0), e.spec_bytes()[112])
            == escrow_signer_seeds(e.maker@, e.seed, e.bump),
{
    lemma_u64_le_roundtrip(e.seed);
    lemma_u64_le_roundtrip(e.receive);
    let b = e.spec_bytes();
    assert(b.subrange(0, 8) =~= u64_le(e.seed));
    assert(b.subrange(8, 40) =~= e.maker@);
    assert(b.subrange(40, 72) =~= e.mint_a@);
    assert(b.subrange(72, 104) =~= e.mint_b@);
    assert(b.subrange(104, 112) =~= u64_le(e.receive));
}

} // verus!
