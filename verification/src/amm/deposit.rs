//! Adding liquidity to a pool.

use vstd::prelude::*;
use crate::account::{AccountView, TokenMove, token_account_from_view, mint_from_view, token_account_outcome,
    mint_outcome};
use crate::address::{Address, seeds_view};
use crate::bytes::{le_u64_at, le_i64_at, read_u64_le, read_i64_le};
use crate::program_error::ProgramError;
use crate::amm::errors::{CustomError, custom, to_program_error};
use crate::amm::helper::{check_signer, mint_check_by_token_program, mint_check_outcome,
    ata_address_check, ata_address_outcome, load_outcome};
use crate::amm::state::{Config, AmmState, spec_seed_config_prefix};

verus! {

/// The data of a deposit: the liquidity to mint, the most of each token the
/// user will pay, and the time after which the deposit is refused.
#[derive(Debug, Clone, Copy)]
pub struct DepositInstructionData {
    pub amount: u64,
    pub max_x: u64,
    pub max_y: u64,
    pub expiration: i64,
}

/// `d` is the deposit data held in `b`: four little-endian fields of eight
/// bytes each.
pub open spec fn deposit_data_in(d: DepositInstructionData, b: Seq<u8>) -> bool {
    &&& d.amount == le_u64_at(b, 0)
    &&& d.max_x == le_u64_at(b, 8)
    &&& d.max_y == le_u64_at(b, 16)
    &&& d.expiration == le_i64_at(b, 24)
}

impl DepositInstructionData {
    /// Reads the deposit data; anything but exactly 32 bytes is refused with
    /// `InvalidDepositData`.
    pub fn try_from(value: &[u8]) -> (r: Result<DepositInstructionData, ProgramError>)
        ensures
            value@.len() != 32 ==> r == Err::<DepositInstructionData, ProgramError>(
                custom(CustomError::InvalidDepositData)),
            value@.len() == 32 ==> (r matches Ok(d) && deposit_data_in(d, value@)),
    {
        if value.len() != 32 {
            return Err(to_program_error(CustomError::InvalidDepositData));
        }
        let amount = read_u64_le(value, 0);
        let max_x = read_u64_le(value, 8);
        let max_y = read_u64_le(value, 16);
        let expiration = read_i64_le(value, 24);
        Ok(DepositInstructionData { amount, max_x, max_y, expiration })
    }
}

/// The accounts of a deposit, in the order the instruction lists them.
pub struct DepositAccounts<'a> {
    pub user: &'a AccountView,
    pub mint_lp: &'a AccountView,
    pub vault_x: &'a AccountView,
    pub vault_y: &'a AccountView,
    pub user_x_ata: &'a AccountView,
    pub user_y_ata: &'a AccountView,
    pub user_lp_ata: &'a AccountView,
    pub config: &'a AccountView,
    pub token_program: &'a AccountView,
}

/// `d` holds the first nine accounts of `accounts` in order.
pub open spec fn deposit_accounts_from<'a>(d: DepositAccounts<'a>, accounts: Seq<AccountView>) -> bool {
    &&& *d.user == accounts[0]
    &&& *d.mint_lp == accounts[1]
    &&& *d.vault_x == accounts[2]
    &&& *d.vault_y == accounts[3]
    &&& *d.user_x_ata == accounts[4]
    &&& *d.user_y_ata == accounts[5]
    &&& *d.user_lp_ata == accounts[6]
    &&& *d.config == accounts[7]
    &&& *d.token_program == accounts[8]
}

/// The outcome of taking the deposit's accounts: at least nine are needed,
/// the user must sign and the liquidity mint must pass the mint check.
pub open spec fn deposit_accounts_outcome(accounts: Seq<AccountView>) -> Option<ProgramError> {
    if accounts.len() < 9 {
        Some(ProgramError::NotEnoughAccountKeys)
    } else if !accounts[0].is_signer {
        Some(ProgramError::MissingRequiredSignature)
    } else {
        match mint_check_outcome(accounts[1], accounts[8]) {
            Some(e) => Some(custom(e)),
            None => None,
        }
    }
}

impl<'a> DepositAccounts<'a> {
    /// Takes the deposit's accounts and checks them.
    pub fn try_from(accounts: &'a [AccountView]) -> (r: Result<DepositAccounts<'a>, ProgramError>)
        ensures
            match deposit_accounts_outcome(accounts@) {
                Some(e) => r is Err && r->Err_0 == e,
                None => r matches Ok(d) && deposit_accounts_from(d, accounts@),
            },
    {
        if accounts.len() < 9 {
            return Err(ProgramError::NotEnoughAccountKeys);
        }
        let user = &accounts[0];
        let mint_lp = &accounts[1];
        let vault_x = &accounts[2];
        let vault_y = &accounts[3];
        let user_x_ata = &accounts[4];
        let user_y_ata = &accounts[5];
        let user_lp_ata = &accounts[6];
        let config = &accounts[7];
        let token_program = &accounts[8];
        check_signer(user)?;
        mint_check_by_token_program(mint_lp, token_program)?;
        Ok(DepositAccounts { user, mint_lp, vault_x, vault_y, user_x_ata, user_y_ata,
            user_lp_ata, config, token_program })
    }
}

/// A deposit: its accounts and its data.
pub struct Deposit<'a> {
    pub accounts: DepositAccounts<'a>,
    pub instruction_data: DepositInstructionData,
}

/// The pool's reserves a deposit is priced on, and the seeds the
/// configuration signs the liquidity minting with.
pub struct DepositReserves {
    pub x_amount: u64,
    pub y_amount: u64,
    pub lp_supply: u64,
    pub seeds: Vec<Vec<u8>>,
}

/// The signing seeds of the configuration record held in `b`.
pub open spec fn config_seeds_in(b: Seq<u8>) -> Seq<Seq<u8>> {
    seq![spec_seed_config_prefix(), b.subrange(1, 9), b.subrange(12, 44), b.subrange(44, 76),
        b.subrange(76, 77)]
}

/// Why a deposit stops before pricing, in the order the checks run: expiry
/// (a deposit is refused once `now` is past its expiration), the
/// configuration account, the pool state, the user's two token accounts,
/// then the two vaults and the liquidity mint.
pub open spec fn deposit_load_error<'a>(acc: DepositAccounts<'a>, data: DepositInstructionData,
    now: i64) -> Option<ProgramError>
{
    let cfg = acc.config.data@;
    if now > data.expiration {
        Some(custom(CustomError::Expired))
    } else if load_outcome(*acc.config, 110) is Some {
        load_outcome(*acc.config, 110)
    } else if cfg[0] != AmmState::Initialized.spec_code() {
        Some(custom(CustomError::NotInitialized))
    } else if ata_address_outcome(acc.user_x_ata.address@, acc.user.address@, cfg.subrange(12, 44),
        acc.token_program.address@) is Some {
        ata_address_outcome(acc.user_x_ata.address@, acc.user.address@, cfg.subrange(12, 44),
            acc.token_program.address@)
    } else if ata_address_outcome(acc.user_y_ata.address@, acc.user.address@, cfg.subrange(44, 76),
        acc.token_program.address@) is Some {
        ata_address_outcome(acc.user_y_ata.address@, acc.user.address@, cfg.subrange(44, 76),
            acc.token_program.address@)
    } else if token_account_outcome(*acc.vault_x) is Some {
        Some(custom(CustomError::LoadValutXFailed))
    } else if token_account_outcome(*acc.vault_y) is Some {
        Some(custom(CustomError::LoadValutYFailed))
    } else if mint_outcome(*acc.mint_lp) is Some {
        Some(custom(CustomError::LoadMintFailed))
    } else {
        None
    }
}

/// What a deposit pays: nothing is priced on an empty pool, where the user
/// pays the most they allowed; otherwise `curve` is the constant-product
/// curve's deposit amounts for the reserves, the supply and the liquidity
/// asked for at `PRECISION` (`None` where the curve fails). Amounts above the
/// user's limits are refused.
pub open spec fn deposit_amounts_outcome(data: DepositInstructionData, lp_supply: u64,
    curve: Option<(u64, u64)>) -> Result<(u64, u64), ProgramError>
{
    let priced = if lp_supply == 0 { Some((data.max_x, data.max_y)) } else { curve };
    match priced {
        None => Err(ProgramError::ArithmeticOverflow),
        Some((x, y)) => if x > data.max_x || y > data.max_y {
            Err(custom(CustomError::XYExceedMax))
        } else {
            Ok((x, y))
        },
    }
}

/// What a deposit moves: the user's two payments into the vaults, then the
/// liquidity minted to the user's liquidity account, signed by the
/// configuration.
#[derive(Debug, Clone, Copy)]
pub struct DepositPlan {
    pub pay_x: TokenMove,
    pub pay_y: TokenMove,
    pub lp_mint: Address,
    pub lp_to: Address,
    pub lp_authority: Address,
    pub lp_amount: u64,
}

impl<'a> Deposit<'a> {
    /// The instruction's tag.
    pub const DISCRIMINATOR: u8 = 1;

    /// Reads the deposit's data, then takes its accounts.
    pub fn try_from(data: &[u8], accounts: &'a [AccountView]) -> (r: Result<Deposit<'a>, ProgramError>)
        ensures
            data@.len() != 32 ==> r == Err::<Deposit<'a>, ProgramError>(
                custom(CustomError::InvalidDepositData)),
            data@.len() == 32 ==> match deposit_accounts_outcome(accounts@) {
                Some(e) => r is Err && r->Err_0 == e,
                None => r matches Ok(d) && deposit_data_in(d.instruction_data, data@)
                    && deposit_accounts_from(d.accounts, accounts@),
            },
    {
        let instruction_data = DepositInstructionData::try_from(data)?;
        let accounts = DepositAccounts::try_from(accounts)?;
        Ok(Deposit { accounts, instruction_data })
    }

    /// The checks a deposit runs at time `now` before it is priced, and the
    /// reserves, supply and signing seeds it reads.
    pub fn load_reserves(&self, now: i64) -> (r: Result<DepositReserves, ProgramError>)
        ensures
            match deposit_load_error(self.accounts, self.instruction_data, now) {
                Some(e) => r is Err && r->Err_0 == e,
                None => r matches Ok(res)
                    && res.x_amount == le_u64_at(self.accounts.vault_x.data@, 64)
                    && res.y_amount == le_u64_at(self.accounts.vault_y.data@, 64)
                    && res.lp_supply == le_u64_at(self.accounts.mint_lp.data@, 36)
                    && seeds_view(res.seeds@) == config_seeds_in(self.accounts.config.data@),
            },
    {
        let acc = &self.accounts;
        if now > self.instruction_data.expiration {
            return Err(to_program_error(CustomError::Expired));
        }
        let config = Config::load(acc.config)?;
        if !config.is_match_state(AmmState::Initialized) {
            return Err(to_program_error(CustomError::NotInitialized));
        }
        let seeds = config.get_seeds();
        ata_address_check(&acc.user_x_ata.address, &acc.user.address, config.mint_x(),
            &acc.token_program.address)?;
        ata_address_check(&acc.user_y_ata.address, &acc.user.address, config.mint_y(),
            &acc.token_program.address)?;
        let vault_x = match token_account_from_view(acc.vault_x) {
            Ok(t) => t,
            Err(_) => { return Err(to_program_error(CustomError::LoadValutXFailed)); },
        };
        let vault_y = match token_account_from_view(acc.vault_y) {
            Ok(t) => t,
            Err(_) => { return Err(to_program_error(CustomError::LoadValutYFailed)); },
        };
        let mint = match mint_from_view(acc.mint_lp) {
            Ok(m) => m,
            Err(_) => { return Err(to_program_error(CustomError::LoadMintFailed)); },
        };
        assert(seeds_view(seeds@) =~= config_seeds_in(acc.config.data@));
        Ok(DepositReserves { x_amount: vault_x.amount, y_amount: vault_y.amount,
            lp_supply: mint.supply, seeds })
    }

    /// The amounts of the two tokens the user pays in, given the liquidity
    /// supply and the curve's quote for the reserves; the instruction then
    /// moves them into the vaults and mints `amount` of liquidity to the user.
    pub fn amounts(&self, lp_supply: u64, curve: Option<(u64, u64)>) -> (r: Result<(u64, u64), ProgramError>)
        ensures
            r == deposit_amounts_outcome(self.instruction_data, lp_supply, curve),
    {
        let data = &self.instruction_data;
        let (x, y) = if lp_supply == 0 {
            (data.max_x, data.max_y)
        } else {
            match curve {
                Some((cx, cy)) => (cx, cy),
                None => { return Err(ProgramError::ArithmeticOverflow); },
            }
        };
        if x > data.max_x || y > data.max_y {
            return Err(to_program_error(CustomError::XYExceedMax));
        }
        Ok((x, y))
    }

    /// The deposit's transfers and mint, given the liquidity supply and the
    /// curve's quote (see `deposit_amounts_outcome`): the first amount from
    /// the user's first token account into the first vault and the second
    /// likewise, both signed by the user, then `amount` of liquidity minted
    /// to the user's liquidity account under the configuration's authority.
    pub fn plan(&self, lp_supply: u64, curve: Option<(u64, u64)>) -> (r: Result<DepositPlan, ProgramError>)
        ensures
            match deposit_amounts_outcome(self.instruction_data, lp_supply, curve) {
                Err(e) => r == Err::<DepositPlan, ProgramError>(e),
                Ok((x, y)) => r matches Ok(p)
                    && p.pay_x == (TokenMove { from: self.accounts.user_x_ata.address,
                        to: self.accounts.vault_x.address, authority: self.accounts.user.address, amount: x })
                    && p.pay_y == (TokenMove { from: self.accounts.user_y_ata.address,
                        to: self.accounts.vault_y.address, authority: self.accounts.user.address, amount: y })
                    && p.lp_mint == self.accounts.mint_lp.address
                    && p.lp_to == self.accounts.user_lp_ata.address
                    && p.lp_authority == self.accounts.config.address
                    && p.lp_amount == self.instruction_data.amount,
            },
    {
        let (x, y) = self.amounts(lp_supply, curve)?;
        let acc = &self.accounts;
        Ok(DepositPlan {
            pay_x: TokenMove { from: acc.user_x_ata.address, to: acc.vault_x.address, authority: acc.user.address,
                amount: x },
            pay_y: TokenMove { from: acc.user_y_ata.address, to: acc.vault_y.address, authority: acc.user.address,
                amount: y },
            lp_mint: acc.mint_lp.address,
            lp_to: acc.user_lp_ata.address,
            lp_authority: acc.config.address,
            lp_amount: self.instruction_data.amount,
        })
    }
}

/// A deposit is refused as expired exactly when it is submitted strictly
/// after its expiration time.
pub proof fn lemma_deposit_expires_after_deadline<'a>(acc: DepositAccounts<'a>, data: DepositInstructionData,
    now: i64)
    ensures
        (deposit_load_error(acc, data, now) == Some(ProgramError::Custom(11))) <==> now > data.expiration,
{
    assert(CustomError::Expired.spec_code() == 11);
}

/// What a deposit pays: into an empty pool the most the user allowed of
/// each token; into a pool with liquidity the curve's quote, first amount
/// for the first token and second for the second, whenever it is within the
/// user's limits; whatever is paid is within the limits; a quote above
/// either limit is refused with `XYExceedMax` (16); a failed quote with
/// `ArithmeticOverflow`.
pub proof fn lemma_deposit_pays_the_quote(data: DepositInstructionData, lp_supply: u64,
    curve: Option<(u64, u64)>, cx: u64, cy: u64)
    ensures
        lp_supply == 0 ==> deposit_amounts_outcome(data, lp_supply, curve)
            == Ok::<(u64, u64), ProgramError>((data.max_x, data.max_y)),
        lp_supply != 0 && curve == Some((cx, cy)) && cx <= data.max_x && cy <= data.max_y
            ==> deposit_amounts_outcome(data, lp_supply, curve) == Ok::<(u64, u64), ProgramError>((cx, cy)),
        lp_supply != 0 && curve == Some((cx, cy)) && (cx > data.max_x || cy > data.max_y)
            ==> deposit_amounts_outcome(data, lp_supply, curve) == Err::<(u64, u64), ProgramError>(ProgramError::Custom(16)),
        lp_supply != 0 && curve is None
            ==> deposit_amounts_outcome(data, lp_supply, curve) == Err::<(u64, u64), ProgramError>(ProgramError::ArithmeticOverflow),
        deposit_amounts_outcome(data, lp_supply, curve) matches Ok((x, y)) ==> x <= data.max_x && y <= data.max_y,
{
    assert(CustomError::XYExceedMax.spec_code() == 16);
}

} // verus!
