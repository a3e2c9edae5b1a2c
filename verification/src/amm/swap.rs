//! Trading one token of a pool for the other.

use vstd::prelude::*;
use crate::account::{AccountView, token_account_from_view, token_account_outcome};
use crate::address::{Address, seeds_view};
use crate::bytes::{le_u64_at, le_i64_at, le_u16_at, read_u64_le, read_i64_le};
use crate::program_error::ProgramError;
use crate::amm::errors::{CustomError, custom, to_program_error};
use crate::amm::helper::load_outcome;
use crate::amm::state::{Config, AmmState};
use crate::amm::deposit::config_seeds_in;

verus! {

/// The data of a swap: which token is paid in (`is_x` for the first), the
/// amount paid in, the least accepted out, and the time after which the
/// swap is refused.
#[derive(Debug, Clone, Copy)]
pub struct SwapData {
    pub is_x: bool,
    pub amount: u64,
    pub min_output: u64,
    pub expiration: i64,
}

/// `d` is the swap data held in `b`: a flag byte, then three little-endian
/// fields of eight bytes each.
pub open spec fn swap_data_in(d: SwapData, b: Seq<u8>) -> bool {
    &&& d.is_x == (b[0] != 0)
    &&& d.amount == le_u64_at(b, 1)
    &&& d.min_output == le_u64_at(b, 9)
    &&& d.expiration == le_i64_at(b, 17)
}

impl SwapData {
    /// Reads the swap data from its first 25 bytes (shorter data is not
    /// accepted: the reads would go past its end).
    pub fn try_from(value: &[u8]) -> (r: Result<SwapData, ProgramError>)
        requires
            value@.len() >= 25,
        ensures
            r matches Ok(d) && swap_data_in(d, value@),
    {
        let is_x = value[0] != 0;
        let amount = read_u64_le(value, 1);
        let min_output = read_u64_le(value, 9);
        let expiration = read_i64_le(value, 17);
        Ok(SwapData { is_x, amount, min_output, expiration })
    }
}

/// The accounts of a swap, in the order the instruction lists them.
pub struct SwapAccounts<'a> {
    pub user: &'a AccountView,
    pub user_x_ata: &'a AccountView,
    pub user_y_ata: &'a AccountView,
    pub vault_x: &'a AccountView,
    pub vault_y: &'a AccountView,
    pub config: &'a AccountView,
    pub token_program: &'a AccountView,
}

/// `s` holds the first seven accounts of `accounts` in order.
pub open spec fn swap_accounts_from<'a>(s: SwapAccounts<'a>, accounts: Seq<AccountView>) -> bool {
    &&& *s.user == accounts[0]
    &&& *s.user_x_ata == accounts[1]
    &&& *s.user_y_ata == accounts[2]
    &&& *s.vault_x == accounts[3]
    &&& *s.vault_y == accounts[4]
    &&& *s.config == accounts[5]
    &&& *s.token_program == accounts[6]
}

impl<'a> SwapAccounts<'a> {
    /// Takes the swap's accounts; fewer than seven are refused.
    pub fn try_from(value: &'a [AccountView]) -> (r: Result<SwapAccounts<'a>, ProgramError>)
        ensures
            value@.len() < 7 ==> r is Err && r->Err_0 == ProgramError::NotEnoughAccountKeys,
            value@.len() >= 7 ==> (r matches Ok(s) && swap_accounts_from(s, value@)),
    {
        if value.len() < 7 {
            return Err(ProgramError::NotEnoughAccountKeys);
        }
        Ok(SwapAccounts {
            user: &value[0],
            user_x_ata: &value[1],
            user_y_ata: &value[2],
            vault_x: &value[3],
            vault_y: &value[4],
            config: &value[5],
            token_program: &value[6],
        })
    }
}

/// A swap: its accounts and its data.
pub struct Swap<'a> {
    pub accounts: SwapAccounts<'a>,
    pub data: SwapData,
}

/// The reserves and fee a swap is priced on, and the configuration's
/// signing seeds.
pub struct SwapReserves {
    pub vault_x_amount: u64,
    pub vault_y_amount: u64,
    pub fee: u16,
    pub seeds: Vec<Vec<u8>>,
}

/// What the constant-product curve answers a swap: it could not be set up
/// on the reserves and fee, it refused the trade, or it quotes the amount
/// paid in and the amount paid out.
#[derive(Debug, Clone, Copy)]
pub enum SwapQuote {
    InitFailed,
    SwapFailed,
    Quoted { deposit: u64, withdraw: u64 },
}

/// The two transfers of a swap: the user's payment into one vault, and the
/// other vault's payment to the user, signed by the configuration.
#[derive(Debug, Clone, Copy)]
pub struct SwapPlan {
    pub deposit_from: Address,
    pub deposit_to: Address,
    pub deposit: u64,
    pub withdraw_from: Address,
    pub withdraw_to: Address,
    pub withdraw: u64,
}

/// Why a swap stops before pricing, in the order the checks run: expiry, the
/// configuration account, the pool state, then the two vaults read as token
/// accounts.
pub open spec fn swap_load_error<'a>(acc: SwapAccounts<'a>, data: SwapData, now: i64) -> Option<ProgramError> {
    if now > data.expiration {
        Some(custom(CustomError::Expired))
    } else if load_outcome(*acc.config, 110) is Some {
        load_outcome(*acc.config, 110)
    } else if acc.config.data@[0] != AmmState::Initialized.spec_code() {
        Some(custom(CustomError::InvalidAmmState))
    } else if token_account_outcome(*acc.vault_x) is Some {
        token_account_outcome(*acc.vault_x)
    } else if token_account_outcome(*acc.vault_y) is Some {
        token_account_outcome(*acc.vault_y)
    } else {
        None
    }
}

impl<'a> Swap<'a> {
    /// The instruction's tag.
    pub const DISCRIMINATOR: u8 = 3;

    /// Reads the swap's data, then takes its accounts.
    pub fn try_from(data: &[u8], accounts: &'a [AccountView]) -> (r: Result<Swap<'a>, ProgramError>)
        requires
            data@.len() >= 25,
        ensures
            accounts@.len() < 7 ==> r is Err && r->Err_0 == ProgramError::NotEnoughAccountKeys,
            accounts@.len() >= 7 ==> (r matches Ok(s) && swap_data_in(s.data, data@)
                && swap_accounts_from(s.accounts, accounts@)),
    {
        let data = SwapData::try_from(data)?;
        let accounts = SwapAccounts::try_from(accounts)?;
        Ok(Swap { accounts, data })
    }

    /// The checks a swap runs at time `now` before it is priced, and the
    /// reserves, fee and signing seeds it reads.
    pub fn load_reserves(&self, now: i64) -> (r: Result<SwapReserves, ProgramError>)
        ensures
            match swap_load_error(self.accounts, self.data, now) {
                Some(e) => r is Err && r->Err_0 == e,
                None => r matches Ok(res)
                    && res.vault_x_amount == le_u64_at(self.accounts.vault_x.data@, 64)
                    && res.vault_y_amount == le_u64_at(self.accounts.vault_y.data@, 64)
                    && res.fee == le_u16_at(self.accounts.config.data@, 10)
                    && seeds_view(res.seeds@) == config_seeds_in(self.accounts.config.data@),
            },
    {
        let acc = &self.accounts;
        if now > self.data.expiration {
            return Err(to_program_error(CustomError::Expired));
        }
        let config = Config::load(acc.config)?;
        let seeds = config.get_seeds();
        if !config.is_match_state(AmmState::Initialized) {
            return Err(to_program_error(CustomError::InvalidAmmState));
        }
        let vault_x = token_account_from_view(acc.vault_x)?;
        let vault_y = token_account_from_view(acc.vault_y)?;
        assert(seeds_view(seeds@) =~= config_seeds_in(acc.config.data@));
        Ok(SwapReserves { vault_x_amount: vault_x.amount, vault_y_amount: vault_y.amount,
            fee: config.fee(), seeds })
    }

    /// The transfers of a swap given the curve's answer: a curve that cannot
    /// be set up is refused with `ArithmeticOverflow`, a refused trade with
    /// `SwapFailed`; paying in the first token moves it from the user's first
    /// token account into the first vault and pays the second vault out to
    /// the user's second token account, and the other way round.
    pub fn plan(&self, quote: SwapQuote) -> (r: Result<SwapPlan, ProgramError>)
        ensures
            match quote {
                SwapQuote::InitFailed => r is Err && r->Err_0 == ProgramError::ArithmeticOverflow,
                SwapQuote::SwapFailed => r is Err && r->Err_0 == custom(CustomError::SwapFailed),
                SwapQuote::Quoted { deposit, withdraw } => r matches Ok(p)
                    && p.deposit == deposit && p.withdraw == withdraw
                    && (self.data.is_x ==> p.deposit_from == self.accounts.user_x_ata.address
                        && p.deposit_to == self.accounts.vault_x.address
                        && p.withdraw_from == self.accounts.vault_y.address
                        && p.withdraw_to == self.accounts.user_y_ata.address)
                    && (!self.data.is_x ==> p.deposit_from == self.accounts.user_y_ata.address
                        && p.deposit_to == self.accounts.vault_y.address
                        && p.withdraw_from == self.accounts.vault_x.address
                        && p.withdraw_to == self.accounts.user_x_ata.address),
            },
    {
        let acc = &self.accounts;
        match quote {
            SwapQuote::InitFailed => Err(ProgramError::ArithmeticOverflow),
            SwapQuote::SwapFailed => Err(to_program_error(CustomError::SwapFailed)),
            SwapQuote::Quoted { deposit, withdraw } => {
                if self.data.is_x {
                    Ok(SwapPlan {
                        deposit_from: acc.user_x_ata.address,
                        deposit_to: acc.vault_x.address,
                        deposit,
                        withdraw_from: acc.vault_y.address,
                        withdraw_to: acc.user_y_ata.address,
                        withdraw,
                    })
                } else {
                    Ok(SwapPlan {
                        deposit_from: acc.user_y_ata.address,
                        deposit_to: acc.vault_y.address,
                        deposit,
                        withdraw_from: acc.vault_x.address,
                        withdraw_to: acc.user_x_ata.address,
                        withdraw,
                    })
                }
            },
        }
    }
}

/// A swap is refused as expired exactly when it is submitted strictly
/// after its expiration time: at or before the deadline no check refuses it
/// as expired, and once the configuration, the pool state and both vaults
/// pass their checks it goes on to pricing.
pub proof fn lemma_swap_expires_after_deadline<'a>(acc: SwapAccounts<'a>, data: SwapData, now: i64)
    ensures
        (swap_load_error(acc, data, now) == Some(ProgramError::Custom(11))) <==> now > data.expiration,
        now <= data.expiration && load_outcome(*acc.config, 110) is None
            && acc.config.data@[0] == 1u8 && token_account_outcome(*acc.vault_x) is None
            && token_account_outcome(*acc.vault_y) is None ==> swap_load_error(acc, data, now) is None,
{
    assert(CustomError::Expired.spec_code() == 11);
    assert(CustomError::InvalidAmmState.spec_code() == 15);
}

} // verus!
