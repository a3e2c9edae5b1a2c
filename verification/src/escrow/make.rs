//! Opening an escrow.

use vstd::prelude::*;
use crate::account::AccountView;
use crate::address::{Address, program_address_search, spec_program_id, address_eq};
use crate::bytes::{le_u64_at, u64_le, read_u64_le, push_u64_le, lemma_u64_le_roundtrip};
use crate::program_error::ProgramError;
use crate::escrow::state::{Escrow, escrow_seeds};
use crate::escrow::util::{mint_check, ata_check, escrow_mint_check_outcome, ata_check_outcome};
use crate::escrow::errors::escrow_err;

verus! {

/// The data of an escrow opening: the maker's seed, the amount of the first
/// token deposited and the amount of the second token wanted.
#[derive(Debug, Clone, Copy)]
pub struct MakeData {
    pub seed: u64,
    pub amount: u64,
    pub receive: u64,
}

/// `d` is the opening data held in `b`: the seed, the amount wanted and the
/// amount deposited, little-endian, in that order.
pub open spec fn make_data_in(d: MakeData, b: Seq<u8>) -> bool {
    &&& d.seed == le_u64_at(b, 0)
    &&& d.receive == le_u64_at(b, 8)
    &&& d.amount == le_u64_at(b, 16)
}

/// Whether opening data is refused: it is shorter than 24 bytes, or the
/// amount deposited is zero.
pub open spec fn make_data_refused(b: Seq<u8>) -> bool {
    b.len() < 24 || le_u64_at(b, 16) == 0
}

impl MakeData {
    /// Reads the opening data from its first 24 bytes; shorter data, and
    /// data depositing nothing, are refused with `InvalidInstructionData`.
    pub fn try_from(data: &[u8]) -> (r: Result<MakeData, ProgramError>)
        ensures
            make_data_refused(data@) ==> r is Err && r->Err_0 == ProgramError::InvalidInstructionData,
            !make_data_refused(data@) ==> (r matches Ok(d) && make_data_in(d, data@)),
    {
        if data.len() < 24 {
            return Err(ProgramError::InvalidInstructionData);
        }
        let seed = read_u64_le(data, 0);
        let receive = read_u64_le(data, 8);
        let amount = read_u64_le(data, 16);
        if amount == 0 {
            return Err(ProgramError::InvalidInstructionData);
        }
        Ok(MakeData { seed, amount, receive })
    }
}

/// The accounts of an escrow opening.
pub struct MakeAccounts<'a> {
    pub maker: &'a AccountView,
    pub escrow: &'a AccountView,
    pub mint_a: &'a AccountView,
    pub mint_b: &'a AccountView,
    pub maker_ata_a: &'a AccountView,
    pub vault_a: &'a AccountView,
    pub token_program: &'a AccountView,
    pub system_program: &'a AccountView,
}

/// An escrow opening: its data and its accounts.
pub struct Make<'a> {
    pub data: MakeData,
    pub accounts: MakeAccounts<'a>,
}

/// Why taking an opening's accounts fails: exactly nine accounts are needed
/// (maker, escrow, both mints, the maker's token account, the vault, the
/// system program, the token program and one more); the maker must sign,
/// the escrow and the vault must be writable, both mints must pass the mint
/// check and the maker's token account the token account check.
pub open spec fn make_accounts_error(a: Seq<AccountView>) -> Option<ProgramError> {
    if a.len() != 9 {
        Some(ProgramError::NotEnoughAccountKeys)
    } else if !a[0].is_signer || !a[1].is_writable || !a[5].is_writable {
        Some(ProgramError::InvalidAccountData)
    } else if escrow_mint_check_outcome(a[2], a[7]) is Some {
        Some(escrow_err(escrow_mint_check_outcome(a[2], a[7])->Some_0))
    } else if escrow_mint_check_outcome(a[3], a[7]) is Some {
        Some(escrow_err(escrow_mint_check_outcome(a[3], a[7])->Some_0))
    } else {
        ata_check_outcome(a[4], a[0], a[7], a[2].address@)
    }
}

/// `m` holds the opening's accounts taken from `a`.
pub open spec fn make_accounts_from<'a>(m: MakeAccounts<'a>, a: Seq<AccountView>) -> bool {
    &&& *m.maker == a[0]
    &&& *m.escrow == a[1]
    &&& *m.mint_a == a[2]
    &&& *m.mint_b == a[3]
    &&& *m.maker_ata_a == a[4]
    &&& *m.vault_a == a[5]
    &&& *m.system_program == a[6]
    &&& *m.token_program == a[7]
}

/// The escrow record an opening writes.
pub open spec fn made_escrow<'a>(m: Make<'a>, bump: u8) -> Escrow {
    Escrow {
        seed: m.data.seed,
        maker: m.accounts.maker.address,
        mint_a: m.accounts.mint_a.address,
        mint_b: m.accounts.mint_b.address,
        receive: m.data.receive,
        bump,
    }
}

impl<'a> Make<'a> {
    /// The instruction's tag.
    pub const DISCRIMINATOR: u8 = 0;

    /// Reads the opening's data, then takes and checks its accounts.
    pub fn try_from(data: &[u8], accounts: &'a [AccountView]) -> (r: Result<Make<'a>, ProgramError>)
        ensures
            make_data_refused(data@) ==> r is Err && r->Err_0 == ProgramError::InvalidInstructionData,
            !make_data_refused(data@) ==> match make_accounts_error(accounts@) {
                Some(e) => r is Err && r->Err_0 == e,
                None => r matches Ok(m) && make_data_in(m.data, data@)
                    && make_accounts_from(m.accounts, accounts@),
            },
    {
        let data = MakeData::try_from(data)?;
        if accounts.len() != 9 {
            return Err(ProgramError::NotEnoughAccountKeys);
        }
        let maker = &accounts[0];
        let escrow = &accounts[1];
        let mint_a = &accounts[2];
        let mint_b = &accounts[3];
        let maker_ata_a = &accounts[4];
        let vault_a = &accounts[5];
        let system_program = &accounts[6];
        let token_program = &accounts[7];
        if !maker.is_signer() {
            return Err(ProgramError::InvalidAccountData);
        }
        if !escrow.is_writable() {
            return Err(ProgramError::InvalidAccountData);
        }
        if !vault_a.is_writable() {
            return Err(ProgramError::InvalidAccountData);
        }
        mint_check(mint_a, token_program)?;
        mint_check(mint_b, token_program)?;
        ata_check(maker_ata_a, maker, token_program, &mint_a.address)?;
        Ok(Make {
            data,
            accounts: MakeAccounts { maker, escrow, mint_a, mint_b, maker_ata_a, vault_a,
                token_program, system_program },
        })
    }

    /// The escrow account must be the address derived for the maker and
    /// the seed (refused with `InvalidAccountData`, or `InvalidSeeds` where
    /// the search finds none); gives the bump the escrow is created with.
    pub fn check_escrow_address(&self) -> (r: Result<u8, ProgramError>)
        ensures
            match program_address_search(escrow_seeds(self.accounts.maker.address@, self.data.seed),
                spec_program_id()) {
                None => r is Err && r->Err_0 == ProgramError::InvalidSeeds,
                Some((a, b)) => if a == self.accounts.escrow.address@ { r == Ok::<u8, ProgramError>(b) }
                    else { r is Err && r->Err_0 == ProgramError::InvalidAccountData },
            },
    {
        match Escrow::derive_escrow_pda(&self.accounts.maker.address, self.data.seed) {
            None => Err(ProgramError::InvalidSeeds),
            Some((pda, bump)) => {
                if !address_eq(&self.accounts.escrow.address, &pda) {
                    return Err(ProgramError::InvalidAccountData);
                }
                Ok(bump)
            },
        }
    }

    /// The escrow account's data once the opening is recorded: the created
    /// account's data must be 113 bytes long, and it then holds the maker, both
    /// mints, the amount wanted, the bump and the seed.
    pub fn record(&self, escrow_data: &[u8], bump: u8) -> (r: Result<Vec<u8>, ProgramError>)
        ensures
            escrow_data@.len() != 113 ==> r is Err && r->Err_0 == ProgramError::InvalidAccountData,
            escrow_data@.len() == 113 ==> (r matches Ok(b) && b@ == made_escrow(*self, bump).spec_bytes()),
    {
        let mut escrow = Escrow::load_mut(escrow_data)?;
        escrow.maker = self.accounts.maker.address;
        escrow.mint_a = self.accounts.mint_a.address;
        escrow.mint_b = self.accounts.mint_b.address;
        escrow.receive = self.data.receive;
        escrow.bump = bump;
        escrow.seed = self.data.seed;
        Ok(escrow.to_bytes())
    }
}

/// The data of an opening instruction: the tag 0, then the seed, the amount
/// wanted and the amount deposited, little-endian.
pub open spec fn spec_make_instruction_data(seed: u64, receive: u64, amount: u64) -> Seq<u8> {
    seq![0u8] + u64_le(seed) + u64_le(receive) + u64_le(amount)
}

/// Builds the data of an opening instruction.
pub fn make_instruction_data(seed: u64, receive: u64, amount: u64) -> (r: Vec<u8>)
    ensures
        r@ == spec_make_instruction_data(seed, receive, amount),
{
    let mut data = vec![0u8];
    push_u64_le(&mut data, seed);
    push_u64_le(&mut data, receive);
    push_u64_le(&mut data, amount);
    assert(data@ =~= spec_make_instruction_data(seed, receive, amount));
    data
}

/// An opening instruction built from a seed and two amounts is picked as an
/// opening and its data reads back as that seed and those amounts.
pub proof fn lemma_make_instruction_data_roundtrip(seed: u64, receive: u64, amount: u64, d: MakeData)
    requires
        make_data_in(d, spec_make_instruction_data(seed, receive, amount).drop_first()),
    ensures
        spec_make_instruction_data(seed, receive, amount)[0] == Make::DISCRIMINATOR,
        spec_make_instruction_data(seed, receive, amount).len() == 25,
        d.seed == seed,
        d.receive == receive,
        d.amount == amount,
{
    lemma_u64_le_roundtrip(seed);
    lemma_u64_le_roundtrip(receive);
    lemma_u64_le_roundtrip(amount);
    let b = spec_make_instruction_data(seed, receive, amount).drop_first();
    assert(b.subrange(0, 8) =~= u64_le(seed));
    assert(b.subrange(8, 16) =~= u64_le(receive));
    assert(b.subrange(16, 24) =~= u64_le(amount));
}

/// The escrow record an opening writes holds the opening: the seed at the
/// start, then the maker and the two mints, then, little-endian at offset
/// 104, the amount of the second token wanted (the data's `receive`, not the
/// amount deposited), and the bump last.
pub proof fn lemma_record_holds_opening<'a>(m: Make<'a>, bump: u8)
    ensures
        made_escrow(m, bump).spec_bytes().len() == 113,
        le_u64_at(made_escrow(m, bump).spec_bytes(), 0) == m.data.seed,
        made_escrow(m, bump).spec_bytes().subrange(8, 40) == m.accounts.maker.address@,
        made_escrow(m, bump).spec_bytes().subrange(40, 72) == m.accounts.mint_a.address@,
        made_escrow(m, bump).spec_bytes().subrange(72, 104) == m.accounts.mint_b.address@,
        le_u64_at(made_escrow(m, bump).spec_bytes(), 104) == m.data.receive,
        made_escrow(m, bump).spec_bytes()[112] == bump,
{
    let e = made_escrow(m, bump);
    lemma_u64_le_roundtrip(e.seed);
    lemma_u64_le_roundtrip(e.receive);
    let b = e.spec_bytes();
    assert(b.subrange(0, 8) =~= u64_le(e.seed));
    assert(b.subrange(8, 40) =~= e.maker@);
    assert(b.subrange(40, 72) =~= e.mint_a@);
    assert(b.subrange(72, 104) =~= e.mint_b@);
    assert(b.subrange(104, 112) =~= u64_le(e.receive));
}

/// An opening built with `make_instruction_data(seed, receive, amount)` and
/// read by `MakeData::try_from` records `receive` as the amount wanted and
/// `seed` as its seed, whatever the amount deposited.
pub proof fn lemma_opening_records_amount_wanted<'a>(seed: u64, receive: u64, amount: u64, m: Make<'a>, bump: u8)
    requires
        make_data_in(m.data, spec_make_instruction_data(seed, receive, amount).drop_first()),
    ensures
        le_u64_at(made_escrow(m, bump).spec_bytes(), 104) == receive,
        le_u64_at(made_escrow(m, bump).spec_bytes(), 0) == seed,
        m.data.amount == amount,
{
    lemma_make_instruction_data_roundtrip(seed, receive, amount, m.data);
    lemma_record_holds_opening(m, bump);
}

} // verus!
