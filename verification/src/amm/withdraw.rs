//! Removing liquidity from a pool.

use vstd::prelude::*;
use crate::account::{AccountView, TokenMove};
use crate::address::{Address, seeds_view};
use crate::bytes::{le_u64_at, le_i64_at, read_u64_le, read_i64_le};
use crate::program_error::ProgramError;
use crate::amm::errors::{CustomError, custom, to_program_error};
use crate::amm::helper::{load, load_outcome};
use crate::amm::state::{Config, AmmState};
use crate::amm::deposit::config_seeds_in;

verus! {

/// The data of a withdrawal: the liquidity to burn, the least of each token
/// the user accepts, and the time before which the withdrawal is refused.
#[derive(Debug, Clone, Copy)]
pub struct WithdrawData {
    pub amount: u64,
    pub min_x: u64,
    pub min_y: u64,
    pub expiration: i64,
}

/// `d` is the withdrawal data held in `b`: four little-endian fields of
/// eight bytes each.
pub open spec fn withdraw_data_in(d: WithdrawData, b: Seq<u8>) -> bool {
    &&& d.amount == le_u64_at(b, 0)
    &&& d.min_x == le_u64_at(b, 8)
    &&& d.min_y == le_u64_at(b, 16)
    &&& d.expiration == le_i64_at(b, 24)
}

impl WithdrawData {
    /// Reads the withdrawal data; anything but exactly 32 bytes is refused
    /// with `InvaidWithdrawData`.
    pub fn try_from(value: &[u8]) -> (r: Result<WithdrawData, ProgramError>)
        ensures
            value@.len() != 32 ==> r == Err::<WithdrawData, ProgramError>(
                custom(CustomError::InvaidWithdrawData)),
            value@.len() == 32 ==> (r matches Ok(d) && withdraw_data_in(d, value@)),
    {
        if value.len() != 32 {
            return Err(to_program_error(CustomError::InvaidWithdrawData));
        }
        let amount = read_u64_le(value, 0);
        let min_x = read_u64_le(value, 8);
        let min_y = read_u64_le(value, 16);
        let expiration = read_i64_le(value, 24);
        Ok(WithdrawData { amount, min_x, min_y, expiration })
    }
}

/// The accounts of a withdrawal, in the order the instruction lists them.
pub struct WithdrawAccounts<'a> {
    pub user: &'a AccountView,
    pub mint_lp: &'a AccountView,
    pub vault_x: &'a AccountView,
    pub vault_y: &'a AccountView,
    pub user_x_ata: &'a AccountView,
    pub user_y_ata: &'a AccountView,
    pub user_lp_ata: &'a AccountView,
    pub config: &'a AccountView,
    pub token_program: &'a AccountView,
}

/// `w` holds the first nine accounts of `accounts` in order.
pub open spec fn withdraw_accounts_from<'a>(w: WithdrawAccounts<'a>, accounts: Seq<AccountView>) -> bool {
    &&& *w.user == accounts[0]
    &&& *w.mint_lp == accounts[1]
    &&& *w.vault_x == accounts[2]
    &&& *w.vault_y == accounts[3]
    &&& *w.user_x_ata == accounts[4]
    &&& *w.user_y_ata == accounts[5]
    &&& *w.user_lp_ata == accounts[6]
    &&& *w.config == accounts[7]
    &&& *w.token_program == accounts[8]
}

impl<'a> WithdrawAccounts<'a> {
    /// Takes the withdrawal's accounts; fewer than nine are refused.
    pub fn try_from(value: &'a [AccountView]) -> (r: Result<WithdrawAccounts<'a>, ProgramError>)
        ensures
            value@.len() < 9 ==> r is Err && r->Err_0 == ProgramError::NotEnoughAccountKeys,
            value@.len() >= 9 ==> (r matches Ok(w) && withdraw_accounts_from(w, value@)),
    {
        if value.len() < 9 {
            return Err(ProgramError::NotEnoughAccountKeys);
        }
        Ok(WithdrawAccounts {
            user: &value[0],
            mint_lp: &value[1],
            vault_x: &value[2],
            vault_y: &value[3],
            user_x_ata: &value[4],
            user_y_ata: &value[5],
            user_lp_ata: &value[6],
            config: &value[7],
            token_program: &value[8],
        })
    }
}

/// A withdrawal: its accounts and its data.
pub struct Withdraw<'a> {
    pub accounts: WithdrawAccounts<'a>,
    pub data: WithdrawData,
}

/// The pool's reserves a withdrawal is priced on, and the configuration's
/// signing seeds.
pub struct WithdrawReserves {
    pub x_amount: u64,
    pub y_amount: u64,
    pub lp_supply: u64,
    pub seeds: Vec<Vec<u8>>,
}

/// Why a withdrawal stops before pricing, in the order the checks run: a
/// withdrawal is refused while `now` is before its expiration (the check is
/// written this way round), then the configuration account, the pool state,
/// the liquidity mint and the two vaults, each loaded as a raw record.
pub open spec fn withdraw_load_error<'a>(acc: WithdrawAccounts<'a>, data: WithdrawData, now: i64)
    -> Option<ProgramError>
{
    if now < data.expiration {
        Some(custom(CustomError::WithdrawExpired))
    } else if load_outcome(*acc.config, 110) is Some {
        load_outcome(*acc.config, 110)
    } else if acc.config.data@[0] != AmmState::Initialized.spec_code() {
        Some(custom(CustomError::NotInitialized))
    } else if load_outcome(*acc.mint_lp, 82) is Some {
        load_outcome(*acc.mint_lp, 82)
    } else if load_outcome(*acc.vault_x, 165) is Some {
        load_outcome(*acc.vault_x, 165)
    } else if load_outcome(*acc.vault_y, 165) is Some {
        load_outcome(*acc.vault_y, 165)
    } else {
        None
    }
}

/// What a withdrawal pays out: burning the whole supply empties both vaults;
/// otherwise `curve` is the constant-product curve's withdrawal amounts for
/// the reserves, the supply and the liquidity burnt at `PRECISION` (`None`
/// where the curve fails, refused with `XYExceedMax`). Amounts under the
/// user's limits are refused.
pub open spec fn withdraw_amounts_outcome(data: WithdrawData, x_amount: u64, y_amount: u64,
    lp_supply: u64, curve: Option<(u64, u64)>) -> Result<(u64, u64), ProgramError>
{
    let priced = if lp_supply == data.amount { Some((x_amount, y_amount)) } else { curve };
    match priced {
        None => Err(custom(CustomError::XYExceedMax)),
        Some((x, y)) => if x < data.min_x || y < data.min_y {
            Err(custom(CustomError::WithdrawAmountTooSmall))
        } else {
            Ok((x, y))
        },
    }
}

/// What a withdrawal moves: `amount` of liquidity burnt from the user's
/// liquidity account (signed by the user), then the two payments out of the
/// vaults to the user, signed by the configuration.
#[derive(Debug, Clone, Copy)]
pub struct WithdrawPlan {
    pub burn_from: Address,
    pub burn_mint: Address,
    pub burn_authority: Address,
    pub burn_amount: u64,
    pub pay_x: TokenMove,
    pub pay_y: TokenMove,
}

impl<'a> Withdraw<'a> {
    /// The instruction's tag.
    pub const DISCRIMINATOR: u8 = 2;

    /// Reads the withdrawal's data, then takes its accounts.
    pub fn try_from(data: &[u8], accounts: &'a [AccountView]) -> (r: Result<Withdraw<'a>, ProgramError>)
        ensures
            data@.len() != 32 ==> r == Err::<Withdraw<'a>, ProgramError>(
                custom(CustomError::InvaidWithdrawData)),
            data@.len() == 32 && accounts@.len() < 9 ==> r is Err
                && r->Err_0 == ProgramError::NotEnoughAccountKeys,
            data@.len() == 32 && accounts@.len() >= 9 ==> (r matches Ok(w)
                && withdraw_data_in(w.data, data@) && withdraw_accounts_from(w.accounts, accounts@)),
    {
        let data = WithdrawData::try_from(data)?;
        let accounts = WithdrawAccounts::try_from(accounts)?;
        Ok(Withdraw { accounts, data })
    }

    /// The checks a withdrawal runs at time `now` before it is priced, and
    /// the reserves, supply and signing seeds it reads.
    pub fn load_reserves(&self, now: i64) -> (r: Result<WithdrawReserves, ProgramError>)
        ensures
            match withdraw_load_error(self.accounts, self.data, now) {
                Some(e) => r is Err && r->Err_0 == e,
                None => r matches Ok(res)
                    && res.x_amount == le_u64_at(self.accounts.vault_x.data@, 64)
                    && res.y_amount == le_u64_at(self.accounts.vault_y.data@, 64)
                    && res.lp_supply == le_u64_at(self.accounts.mint_lp.data@, 36)
                    && seeds_view(res.seeds@) == config_seeds_in(self.accounts.config.data@),
            },
    {
        let acc = &self.accounts;
        if now < self.data.expiration {
            return Err(to_program_error(CustomError::WithdrawExpired));
        }
        let config = Config::load(acc.config)?;
        if !config.is_match_state(AmmState::Initialized) {
            return Err(to_program_error(CustomError::NotInitialized));
        }
        let mint = load(acc.mint_lp, crate::account::mint_len())?;
        let lp_supply = read_u64_le(mint, 36);
        let vault_x = load(acc.vault_x, crate::account::token_account_len())?;
        let vault_y = load(acc.vault_y, crate::account::token_account_len())?;
        let x_amount = read_u64_le(vault_x, 64);
        let y_amount = read_u64_le(vault_y, 64);
        let seeds = config.get_seeds();
        assert(seeds_view(seeds@) =~= config_seeds_in(acc.config.data@));
        Ok(WithdrawReserves { x_amount, y_amount, lp_supply, seeds })
    }

    /// The amounts of the two tokens paid out, given the reserves, the supply
    /// and the curve's quote; the instruction then burns `amount` of the
    /// user's liquidity and moves them out of the vaults.
    pub fn amounts(&self, x_amount: u64, y_amount: u64, lp_supply: u64, curve: Option<(u64, u64)>)
        -> (r: Result<(u64, u64), ProgramError>)
        ensures
            r == withdraw_amounts_outcome(self.data, x_amount, y_amount, lp_supply, curve),
    {
        let (x, y) = if lp_supply == self.data.amount {
            (x_amount, y_amount)
        } else {
            match curve {
                Some((cx, cy)) => (cx, cy),
                None => { return Err(to_program_error(CustomError::XYExceedMax)); },
            }
        };
        if x < self.data.min_x || y < self.data.min_y {
            return Err(to_program_error(CustomError::WithdrawAmountTooSmall));
        }
        Ok((x, y))
    }

    /// The withdrawal's burn and transfers, given the reserves, the supply
    /// and the curve's quote (see `withdraw_amounts_outcome`).
    pub fn plan(&self, x_amount: u64, y_amount: u64, lp_supply: u64, curve: Option<(u64, u64)>)
        -> (r: Result<WithdrawPlan, ProgramError>)
        ensures
            match withdraw_amounts_outcome(self.data, x_amount, y_amount, lp_supply, curve) {
                Err(e) => r == Err::<WithdrawPlan, ProgramError>(e),
                Ok((x, y)) => r matches Ok(p)
                    && p.burn_from == self.accounts.user_lp_ata.address
                    && p.burn_mint == self.accounts.mint_lp.address
                    && p.burn_authority == self.accounts.user.address
                    && p.burn_amount == self.data.amount
                    && p.pay_x == (TokenMove { from: self.accounts.vault_x.address,
                        to: self.accounts.user_x_ata.address, authority: self.accounts.config.address, amount: x })
                    && p.pay_y == (TokenMove { from: self.accounts.vault_y.address,
                        to: self.accounts.user_y_ata.address, authority: self.accounts.config.address, amount: y }),
            },
    {
        let (x, y) = self.amounts(x_amount, y_amount, lp_supply, curve)?;
        let acc = &self.accounts;
        Ok(WithdrawPlan {
            burn_from: acc.user_lp_ata.address,
            burn_mint: acc.mint_lp.address,
            burn_authority: acc.user.address,
            burn_amount: self.data.amount,
            pay_x: TokenMove { from: acc.vault_x.address, to: acc.user_x_ata.address, authority: acc.config.address,
                amount: x },
            pay_y: TokenMove { from: acc.vault_y.address, to: acc.user_y_ata.address, authority: acc.config.address,
                amount: y },
        })
    }
}

/// A withdrawal is refused with `WithdrawExpired` (21) exactly when it is
/// submitted strictly before its expiration time (the check runs this way
/// round).
pub proof fn lemma_withdraw_refused_before_expiration<'a>(acc: WithdrawAccounts<'a>, data: WithdrawData, now: i64)
    ensures
        (withdraw_load_error(acc, data, now) == Some(ProgramError::Custom(21))) <==> now < data.expiration,
{
    assert(CustomError::WithdrawExpired.spec_code() == 21);
    assert(CustomError::NotInitialized.spec_code() == 10);
}

/// What a withdrawal pays out: burning the whole supply pays out both
/// reserves; otherwise the curve's quote, first amount in the first token
/// and second in the second, whenever it reaches the user's minimums;
/// whatever is paid reaches the minimums; a quote below either minimum is
/// refused with `WithdrawAmountTooSmall` (22); a failed quote with
/// `XYExceedMax` (16).
pub proof fn lemma_withdraw_pays_the_quote(data: WithdrawData, x_amount: u64, y_amount: u64, lp_supply: u64,
    curve: Option<(u64, u64)>, cx: u64, cy: u64)
    ensures
        lp_supply == data.amount && x_amount >= data.min_x && y_amount >= data.min_y
            ==> withdraw_amounts_outcome(data, x_amount, y_amount, lp_supply, curve)
                == Ok::<(u64, u64), ProgramError>((x_amount, y_amount)),
        lp_supply != data.amount && curve == Some((cx, cy)) && cx >= data.min_x && cy >= data.min_y
            ==> withdraw_amounts_outcome(data, x_amount, y_amount, lp_supply, curve)
                == Ok::<(u64, u64), ProgramError>((cx, cy)),
        lp_supply != data.amount && curve == Some((cx, cy)) && (cx < data.min_x || cy < data.min_y)
            ==> withdraw_amounts_outcome(data, x_amount, y_amount, lp_supply, curve)
                == Err::<(u64, u64), ProgramError>(ProgramError::Custom(22)),
        lp_supply != data.amount && curve is None
            ==> withdraw_amounts_outcome(data, x_amount, y_amount, lp_supply, curve)
                == Err::<(u64, u64), ProgramError>(ProgramError::Custom(16)),
        withdraw_amounts_outcome(data, x_amount, y_amount, lp_supply, curve) matches Ok((x, y))
            ==> x >= data.min_x && y >= data.min_y,
{
    assert(CustomError::WithdrawAmountTooSmall.spec_code() == 22);
    assert(CustomError::XYExceedMax.spec_code() == 16);
}

} // verus!
