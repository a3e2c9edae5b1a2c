//! Creating a pool.

use vstd::prelude::*;
use vstd::bytes::spec_u64_from_le_bytes;
use vstd::slice::slice_to_vec;
use crate::account::AccountView;
use crate::address::seeds_view;
use crate::bytes::{le_u64_at, le_u16_at, u64_le, u64_be, read_u64_le, read_u16_le, read_array,
    u64_to_le_array, lemma_u64_le_roundtrip};
use crate::program_error::ProgramError;
use crate::amm::errors::{CustomError, custom, to_program_error};
use crate::amm::helper::{check_signer, load_outcome};
use crate::amm::state::{Config, AmmState, seed_config_prefix, seed_mint_lp_prefix,
    spec_seed_config_prefix, spec_seed_mint_lp_prefix};

verus! {

/// The accounts of a pool creation, in the order the instruction lists them.
pub struct InitializeAccounts<'a> {
    pub initializer: &'a AccountView,
    pub mint_lp: &'a AccountView,
    pub config: &'a AccountView,
}

/// The outcome of taking the creation's accounts: at least three are needed
/// and the first must sign.
pub open spec fn initialize_accounts_outcome(accounts: Seq<AccountView>) -> Option<ProgramError> {
    if accounts.len() < 3 {
        Some(ProgramError::NotEnoughAccountKeys)
    } else if !accounts[0].is_signer {
        Some(ProgramError::MissingRequiredSignature)
    } else {
        None
    }
}

impl<'a> InitializeAccounts<'a> {
    /// Takes the creation's accounts and checks the initializer signed.
    pub fn try_from(accounts: &'a [AccountView]) -> (r: Result<InitializeAccounts<'a>, ProgramError>)
        ensures
            match initialize_accounts_outcome(accounts@) {
                Some(e) => r is Err && r->Err_0 == e,
                None => r matches Ok(i) && *i.initializer == accounts@[0]
                    && *i.mint_lp == accounts@[1] && *i.config == accounts@[2],
            },
    {
        if accounts.len() < 3 {
            return Err(ProgramError::NotEnoughAccountKeys);
        }
        let initializer = &accounts[0];
        let mint_lp = &accounts[1];
        let config = &accounts[2];
        check_signer(initializer)?;
        Ok(InitializeAccounts { initializer, mint_lp, config })
    }
}

/// The data of a pool creation. It comes in 108 bytes, or in 76 without the
/// authority, which is then all zeros.
#[derive(Debug, Clone, Copy)]
pub struct InitializeData {
    pub seed: u64,
    pub fee: u16,
    pub mint_x: [u8; 32],
    pub mint_y: [u8; 32],
    pub config_bump: [u8; 1],
    pub lp_bump: [u8; 1],
    pub authority: [u8; 32],
}

/// The length of the creation data with its authority.
pub const INITIALIZE_DATA_LEN: usize = 108;

/// The length of the creation data without its authority.
pub const INITIALIZE_DATA_LEN_WITHOUT_AUTHORITY: usize = 76;

/// `d` is the creation data held in `b` (76 or 108 bytes): the seed and the
/// fee little-endian, the mints and bumps in order, then the authority, or
/// zeros where `b` stops before it.
pub open spec fn initialize_data_in(d: InitializeData, b: Seq<u8>) -> bool {
    &&& d.seed == le_u64_at(b, 0)
    &&& d.fee == le_u16_at(b, 8)
    &&& d.mint_x@ == b.subrange(10, 42)
    &&& d.mint_y@ == b.subrange(42, 74)
    &&& d.config_bump@ == b.subrange(74, 75)
    &&& d.lp_bump@ == b.subrange(75, 76)
    &&& d.authority@ == (if b.len() == 108 { b.subrange(76, 108) } else { Seq::new(32, |i: int| 0u8) })
}

impl InitializeData {
    /// Reads the creation data; any length but 76 or 108 is refused with
    /// `InvalidInitializeData`.
    pub fn try_from(data: &[u8]) -> (r: Result<InitializeData, ProgramError>)
        ensures
            data@.len() != 76 && data@.len() != 108 ==> r == Err::<InitializeData, ProgramError>(
                custom(CustomError::InvalidInitializeData)),
            data@.len() == 76 || data@.len() == 108 ==> (r matches Ok(d) && initialize_data_in(d, data@)),
    {
        let len = data.len();
        if len != INITIALIZE_DATA_LEN_WITHOUT_AUTHORITY && len != INITIALIZE_DATA_LEN {
            return Err(to_program_error(CustomError::InvalidInitializeData));
        }
        let authority = if len == INITIALIZE_DATA_LEN {
            read_array::<32>(data, 76)
        } else {
            let a = [0u8; 32];
            assert(a@ =~= Seq::new(32, |i: int| 0u8));
            a
        };
        Ok(InitializeData {
            seed: read_u64_le(data, 0),
            fee: read_u16_le(data, 8),
            mint_x: read_array::<32>(data, 10),
            mint_y: read_array::<32>(data, 42),
            config_bump: read_array::<1>(data, 74),
            lp_bump: read_array::<1>(data, 75),
            authority,
        })
    }
}

/// A pool creation: its accounts and its data.
pub struct Initialize<'a> {
    pub accounts: InitializeAccounts<'a>,
    pub data: InitializeData,
}

/// The seeds the configuration address is created with: `config`, the
/// seed's little-endian bytes, both mints and the configuration bump.
pub open spec fn creation_seeds(d: InitializeData) -> Seq<Seq<u8>> {
    seq![spec_seed_config_prefix(), u64_le(d.seed), d.mint_x@, d.mint_y@, d.config_bump@]
}

/// The configuration a creation writes over `old`: `old` with every field
/// set from the creation data as `set_inner` sets it.
pub open spec fn configured(c: Config, d: InitializeData) -> bool {
    &&& c.state == AmmState::Initialized.spec_code()
    &&& c.seed@ == u64_be(d.seed)
    &&& c.fee == d.fee
    &&& c.mint_x == d.mint_x
    &&& c.mint_y == d.mint_y
    &&& c.config_bump == d.config_bump
    &&& c.lp_bump == d.lp_bump
    &&& c.authority == d.authority
}

impl<'a> Initialize<'a> {
    /// The instruction's tag.
    pub const DISCRIMINATOR: u8 = 0;

    /// Takes the creation's accounts, then reads its data.
    pub fn try_from(data: &[u8], accounts: &'a [AccountView]) -> (r: Result<Initialize<'a>, ProgramError>)
        ensures
            initialize_accounts_outcome(accounts@) is Some ==> r is Err
                && r->Err_0 == initialize_accounts_outcome(accounts@)->Some_0,
            initialize_accounts_outcome(accounts@) is None && data@.len() != 76 && data@.len() != 108
                ==> r is Err && r->Err_0 == custom(CustomError::InvalidInitializeData),
            initialize_accounts_outcome(accounts@) is None && (data@.len() == 76 || data@.len() == 108)
                ==> (r matches Ok(i) && initialize_data_in(i.data, data@)
                && *i.accounts.config == accounts@[2] && *i.accounts.mint_lp == accounts@[1]
                && *i.accounts.initializer == accounts@[0]),
    {
        let accounts = InitializeAccounts::try_from(accounts)?;
        let data = InitializeData::try_from(data)?;
        Ok(Initialize { accounts, data })
    }

    /// The seeds the configuration account is created with.
    pub fn config_seeds(&self) -> (r: Vec<Vec<u8>>)
        ensures
            seeds_view(r@) == creation_seeds(self.data),
    {
        let mut s: Vec<Vec<u8>> = Vec::new();
        s.push(seed_config_prefix());
        let le = u64_to_le_array(self.data.seed);
        s.push(slice_to_vec(le.as_slice()));
        s.push(slice_to_vec(self.data.mint_x.as_slice()));
        s.push(slice_to_vec(self.data.mint_y.as_slice()));
        s.push(slice_to_vec(self.data.config_bump.as_slice()));
        assert(seeds_view(s@) =~= creation_seeds(self.data));
        s
    }

    /// The seeds the liquidity mint is created with: `mint_lp`, the
    /// configuration's address and the liquidity bump.
    pub fn mint_lp_seeds(&self) -> (r: Vec<Vec<u8>>)
        ensures
            seeds_view(r@) == seq![spec_seed_mint_lp_prefix(), self.accounts.config.address@,
                self.data.lp_bump@],
    {
        let mut s: Vec<Vec<u8>> = Vec::new();
        s.push(seed_mint_lp_prefix());
        s.push(slice_to_vec(self.accounts.config.address.as_slice()));
        s.push(slice_to_vec(self.data.lp_bump.as_slice()));
        assert(seeds_view(s@) =~= seq![spec_seed_mint_lp_prefix(), self.accounts.config.address@,
            self.data.lp_bump@]);
        s
    }

    /// The configuration written into the freshly created configuration
    /// account: the account is checked as `load_mut` checks it, and the
    /// record read from it is filled in by `set_inner`.
    pub fn configure(&self, config: &AccountView) -> (r: Result<Config, ProgramError>)
        ensures
            match load_outcome(*config, 110) {
                Some(e) => r is Err && r->Err_0 == e,
                None => r matches Ok(c) && configured(c, self.data),
            },
    {
        let mut c = Config::load_mut(config)?;
        let d = &self.data;
        c.set_inner(d.seed, d.fee, d.mint_x, d.mint_y, d.config_bump, d.lp_bump, d.authority);
        Ok(c)
    }
}

/// A configuration set up from creation data signs with the seeds its
/// address was created with exactly when the seed's eight bytes read the
/// same both ways: the creation uses the seed's little-endian bytes, the
/// stored record its big-endian bytes.
pub proof fn lemma_signing_seeds_match_creation(c: Config, d: InitializeData)
    requires
        configured(c, d),
    ensures
        (c.spec_seeds() == creation_seeds(d)) <==> (u64_le(d.seed).reverse() == u64_le(d.seed)),
{
    lemma_u64_le_roundtrip(d.seed);
    if c.spec_seeds() == creation_seeds(d) {
        assert(c.spec_seeds()[1] == creation_seeds(d)[1]);
    }
    if u64_le(d.seed).reverse() == u64_le(d.seed) {
        assert(c.spec_seeds() =~= creation_seeds(d));
    }
}

/// The seed a configuration set up from creation data reports is the
/// creation seed with its bytes reversed; it is the creation seed exactly
/// when those bytes read the same both ways.
pub proof fn lemma_configured_seed(c: Config, d: InitializeData)
    requires
        configured(c, d),
    ensures
        c.spec_seed() == spec_u64_from_le_bytes(u64_le(d.seed).reverse()),
        (c.spec_seed() == d.seed) <==> (u64_le(d.seed).reverse() == u64_le(d.seed)),
{
    lemma_u64_le_roundtrip(d.seed);
    let rev = u64_le(d.seed).reverse();
    assert(rev.len() == 8);
    crate::bytes::lemma_u64_le_bytes_roundtrip(rev);
}

/// A configuration set up from creation data holds that data: the pool is
/// initialized, and its fee, both mints, both bumps and its authority are
/// the creation's; the seed is kept as the eight big-endian bytes of the
/// creation seed. Written to its 110 bytes, the fee is found little-endian
/// at offset 10 and the mints at 12 and 44.
pub proof fn lemma_configured_holds_creation_data(c: Config, d: InitializeData)
    requires
        configured(c, d),
    ensures
        c.state == 1u8,
        c.fee == d.fee,
        c.mint_x == d.mint_x,
        c.mint_y == d.mint_y,
        c.config_bump == d.config_bump,
        c.lp_bump == d.lp_bump,
        c.authority == d.authority,
        c.seed@ == u64_le(d.seed).reverse(),
        le_u16_at(c.spec_bytes(), 10) == d.fee,
        c.spec_bytes().subrange(12, 44) == d.mint_x@,
        c.spec_bytes().subrange(44, 76) == d.mint_y@,
{
    crate::bytes::lemma_u16_le_roundtrip(c.fee);
    let b = c.spec_bytes();
    assert(b.subrange(10, 12) =~= crate::bytes::u16_le(c.fee));
    assert(b.subrange(12, 44) =~= c.mint_x@);
    assert(b.subrange(44, 76) =~= c.mint_y@);
}

} // verus!
