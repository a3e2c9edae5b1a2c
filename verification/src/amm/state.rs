//! The market maker's configuration account and its pool states.

use vstd::prelude::*;
use vstd::bytes::{spec_u64_from_le_bytes, spec_u16_to_le_bytes};
use vstd::slice::slice_to_vec;
use crate::account::AccountView;
use crate::bytes::{le_u16_at, u16_le, u64_be, read_array, read_u16_le, push_bytes,
    push_u16_le, u64_to_be_array, lemma_u16_le_roundtrip};
use crate::address::seeds_view;
use crate::program_error::ProgramError;
use crate::amm::errors::{CustomError, custom, to_program_error};
use crate::amm::helper::{load, load_outcome};

verus! {

/// The decimal precision the pool's amounts are computed with: 10^6.
pub const PRECISION: u32 = 1_000_000;

/// The length of the configuration record: a state byte, eight seed bytes,
/// one byte of padding, the two-byte fee, two 32-byte mints, two bump bytes
/// and the 32-byte authority.
pub const CONFIG_LEN: usize = 110;

/// The first seed of the configuration address: `config`.
pub open spec fn spec_seed_config_prefix() -> Seq<u8> {
    seq![99u8, 111, 110, 102, 105, 103]
}

/// The first seed of the liquidity mint address: `mint_lp`.
pub open spec fn spec_seed_mint_lp_prefix() -> Seq<u8> {
    seq![109u8, 105, 110, 116, 95, 108, 112]
}

/// The bytes `config`.
pub fn seed_config_prefix() -> (r: Vec<u8>)
    ensures
        r@ == spec_seed_config_prefix(),
{
    let r = vec![99u8, 111, 110, 102, 105, 103];
    assert(r@ =~= spec_seed_config_prefix());
    r
}

/// The bytes `mint_lp`.
pub fn seed_mint_lp_prefix() -> (r: Vec<u8>)
    ensures
        r@ == spec_seed_mint_lp_prefix(),
{
    let r = vec![109u8, 105, 110, 116, 95, 108, 112];
    assert(r@ =~= spec_seed_mint_lp_prefix());
    r
}

/// The states of a pool, stored as one byte (0 to 3).
#[derive(Debug, Clone, Copy, PartialEq, Eq, Structural)]
pub enum AmmState {
    Uninitialized,
    Initialized,
    Disable,
    WithdrawOnly,
}

impl AmmState {
    /// The byte a state is stored as.
    pub open spec fn spec_code(self) -> u8 {
        match self {
            AmmState::Uninitialized => 0,
            AmmState::Initialized => 1,
            AmmState::Disable => 2,
            AmmState::WithdrawOnly => 3,
        }
    }

    /// The byte a state is stored as.
    pub fn code(&self) -> (r: u8)
        ensures
            r == self.spec_code(),
    {
        match self {
            AmmState::Uninitialized => 0,
            AmmState::Initialized => 1,
            AmmState::Disable => 2,
            AmmState::WithdrawOnly => 3,
        }
    }

    /// The state stored as `value`; any byte above 3 is refused with
    /// `InvalidAmmState`.
    pub fn try_from(value: u8) -> (r: Result<AmmState, ProgramError>)
        ensures
            value <= 3 ==> (r matches Ok(s) && s.spec_code() == value),
            value > 3 ==> r == Err::<AmmState, ProgramError>(custom(CustomError::InvalidAmmState)),
    {
        match value {
            0 => Ok(AmmState::Uninitialized),
            1 => Ok(AmmState::Initialized),
            2 => Ok(AmmState::Disable),
            3 => Ok(AmmState::WithdrawOnly),
            _ => Err(to_program_error(CustomError::InvalidAmmState)),
        }
    }
}

/// Each state has its own byte, so reading back the byte a state is stored
/// as gives that state.
pub proof fn lemma_state_code_roundtrip(s: AmmState, t: AmmState)
    ensures
        s.spec_code() <= 3,
        (s.spec_code() == t.spec_code()) <==> (s == t),
{
}

/// A pool's configuration.
#[derive(Debug, Clone, Copy)]
pub struct Config {
    pub state: u8,
    pub seed: [u8; 8],
    pub fee: u16,
    pub mint_x: [u8; 32],
    pub mint_y: [u8; 32],
    pub config_bump: [u8; 1],
    pub lp_bump: [u8; 1],
    pub authority: [u8; 32],
}

impl Config {
    /// The configuration's authority.
    pub open spec fn spec_authority(self) -> Seq<u8> {
        self.authority@
    }

    /// The record's bytes: the fields in order, with a zero padding byte
    /// between the seed and the little-endian fee.
    pub open spec fn spec_bytes(self) -> Seq<u8> {
        seq![self.state] + self.seed@ + seq![0u8] + u16_le(self.fee) + self.mint_x@
            + self.mint_y@ + self.config_bump@ + self.lp_bump@ + self.authority@
    }

    /// `self` is the record stored in `b`: every field at its offset, the
    /// padding byte (offset 9) aside.
    pub open spec fn read_from(self, b: Seq<u8>) -> bool {
        &&& b.len() == 110
        &&& self.state == b[0]
        &&& self.seed@ == b.subrange(1, 9)
        &&& self.fee == le_u16_at(b, 10)
        &&& self.mint_x@ == b.subrange(12, 44)
        &&& self.mint_y@ == b.subrange(44, 76)
        &&& self.config_bump@ == b.subrange(76, 77)
        &&& self.lp_bump@ == b.subrange(77, 78)
        &&& self.authority@ == b.subrange(78, 110)
    }

    /// Reads the record from 110 bytes of account data.
    pub fn from_bytes(data: &[u8]) -> (r: Config)
        requires
            data@.len() == 110,
        ensures
            r.read_from(data@),
    {
        Config {
            state: data[0],
            seed: read_array::<8>(data, 1),
            fee: read_u16_le(data, 10),
            mint_x: read_array::<32>(data, 12),
            mint_y: read_array::<32>(data, 44),
            config_bump: read_array::<1>(data, 76),
            lp_bump: read_array::<1>(data, 77),
            authority: read_array::<32>(data, 78),
        }
    }

    /// The record's 110 bytes.
    pub fn to_bytes(&self) -> (r: Vec<u8>)
        ensures
            r@ == self.spec_bytes(),
            r@.len() == 110,
    {
        proof { lemma_u16_le_roundtrip(self.fee); }
        let mut out: Vec<u8> = Vec::new();
        out.push(self.state);
        push_bytes(&mut out, self.seed.as_slice());
        out.push(0u8);
        push_u16_le(&mut out, self.fee);
        push_bytes(&mut out, self.mint_x.as_slice());
        push_bytes(&mut out, self.mint_y.as_slice());
        push_bytes(&mut out, self.config_bump.as_slice());
        push_bytes(&mut out, self.lp_bump.as_slice());
        push_bytes(&mut out, self.authority.as_slice());
        assert(out@ =~= self.spec_bytes());
        out
    }

    /// Loads the configuration from its account: the account is checked as
    /// `load` checks it for a 110-byte record, then read.
    pub fn load(account: &AccountView) -> (r: Result<Config, ProgramError>)
        ensures
            match load_outcome(*account, 110) {
                Some(e) => r == Err::<Config, ProgramError>(e),
                None => r matches Ok(c) && c.read_from(account.data@),
            },
    {
        let data = load(account, CONFIG_LEN)?;
        Ok(Config::from_bytes(data))
    }

    /// Loads the configuration for writing: the same checks as `load`.
    pub fn load_mut(account: &AccountView) -> (r: Result<Config, ProgramError>)
        ensures
            match load_outcome(*account, 110) {
                Some(e) => r == Err::<Config, ProgramError>(e),
                None => r matches Ok(c) && c.read_from(account.data@),
            },
    {
        Config::load(account)
    }

    /// Fills in a new pool: state `Initialized`, the seed stored as its
    /// big-endian bytes, and the given fee, mints, bumps and authority.
    pub fn set_inner(&mut self, seed: u64, fee: u16, mint_x: [u8; 32], mint_y: [u8; 32],
        config_bump: [u8; 1], lp_bump: [u8; 1], authority: [u8; 32])
        ensures
            final(self).state == AmmState::Initialized.spec_code(),
            final(self).seed@ == u64_be(seed),
            final(self).fee == fee,
            final(self).mint_x == mint_x,
            final(self).mint_y == mint_y,
            final(self).config_bump == config_bump,
            final(self).lp_bump == lp_bump,
            final(self).authority == authority,
    {
        self.state = AmmState::Initialized.code();
        self.authority = authority;
        self.mint_x = mint_x;
        self.mint_y = mint_y;
        self.seed = u64_to_be_array(seed);
        self.fee = fee;
        self.lp_bump = lp_bump;
        self.config_bump = config_bump;
        self.authority = authority;
    }

    /// Whether the pool is in `state`.
    pub fn is_match_state(&self, state: AmmState) -> (r: bool)
        ensures
            r == (state.spec_code() == self.state),
    {
        state.code() == self.state
    }

    /// The pool's state, refused with `InvalidAmmState` when the stored byte
    /// is not one of the four.
    pub fn get_state(&self) -> (r: Result<AmmState, ProgramError>)
        ensures
            self.state <= 3 ==> (r matches Ok(s) && s.spec_code() == self.state),
            self.state > 3 ==> r == Err::<AmmState, ProgramError>(custom(CustomError::InvalidAmmState)),
    {
        AmmState::try_from(self.state)
    }

    /// The seed, read as a little-endian `u64` from the stored bytes.
    pub open spec fn spec_seed(self) -> u64 {
        spec_u64_from_le_bytes(self.seed@)
    }

    /// The seed, read as a little-endian `u64` from the stored bytes.
    pub fn seed(&self) -> (r: u64)
        ensures
            r == self.spec_seed(),
    {
        vstd::bytes::u64_from_le_bytes(self.seed.as_slice())
    }

    /// The fee.
    pub fn fee(&self) -> (r: u16)
        ensures
            r == self.fee,
    {
        self.fee
    }

    /// The authority.
    pub fn authority(&self) -> (r: &[u8; 32])
        ensures
            r@ == self.spec_authority(),
    {
        &self.authority
    }

    /// The first mint.
    pub fn mint_x(&self) -> (r: &[u8; 32])
        ensures
            *r == self.mint_x,
    {
        &self.mint_x
    }

    /// The second mint.
    pub fn mint_y(&self) -> (r: &[u8; 32])
        ensures
            *r == self.mint_y,
    {
        &self.mint_y
    }

    /// The seeds the configuration signs with: `config`, the stored seed
    /// bytes, both mints and the configuration bump.
    pub open spec fn spec_seeds(self) -> Seq<Seq<u8>> {
        seq![spec_seed_config_prefix(), self.seed@, self.mint_x@, self.mint_y@, self.config_bump@]
    }

    /// The seeds the configuration signs with.
    pub fn get_seeds(&self) -> (r: Vec<Vec<u8>>)
        ensures
            seeds_view(r@) == self.spec_seeds(),
    {
        let mut s: Vec<Vec<u8>> = Vec::new();
        s.push(seed_config_prefix());
        s.push(slice_to_vec(self.seed.as_slice()));
        s.push(slice_to_vec(self.mint_x.as_slice()));
        s.push(slice_to_vec(self.mint_y.as_slice()));
        s.push(slice_to_vec(self.config_bump.as_slice()));
        assert(seeds_view(s@) =~= self.spec_seeds());
        s
    }
}

/// A configuration written to its 110 bytes and read back is the same
/// configuration: reading is determined by the bytes, and the bytes written
/// hold every field.
pub proof fn lemma_config_bytes_roundtrip(c: Config, read: Config)
    requires
        read.read_from(c.spec_bytes()),
    ensures
        read == c,
{
    broadcast use vstd::array::group_array_axioms;
    lemma_u16_le_roundtrip(c.fee);
    let b = c.spec_bytes();
    assert(b.subrange(10, 12) =~= u16_le(c.fee));
    assert(read.seed =~= c.seed);
    assert(read.mint_x =~= c.mint_x);
    assert(read.mint_y =~= c.mint_y);
    assert(read.config_bump =~= c.config_bump);
    assert(read.lp_bump =~= c.lp_bump);
    assert(read.authority =~= c.authority);
}

} // verus!
