//! A token sale: buyers pay lamports into a treasury and receive a fixed
//! number of tokens per lamport, until the supply cap is reached.

use vstd::prelude::*;
use crate::address::Address;

verus! {

/// Tokens minted per lamport paid.
pub const TOKEN_PER_SOL: u64 = 100;

/// The most tokens (in base units) that may ever exist.
pub const SUPPLY_CAP: u64 = 1_000_000_000_000;

/// The sale's configuration: its administrator.
#[derive(Debug, Clone, Copy)]
pub struct AdminConfig {
    pub admin: Address,
}

/// The configuration a new sale starts with.
pub fn initialize(admin: Address) -> (r: AdminConfig)
    ensures
        r.admin == admin,
{
    AdminConfig { admin }
}

/// Why a purchase is refused.
#[derive(Debug, Clone, Copy, PartialEq, Eq, Structural)]
pub enum Errors {
    SupplyLimit,
    Overflow,
    UnauthorizedAccess,
    InsufficientFunds,
}

/// The number of tokens a payment of `lamports` buys when `current_supply`
/// tokens exist: `lamports * TOKEN_PER_SOL`, refused with `Overflow` when
/// that product or the new supply passes `u64::MAX`, and with `SupplyLimit`
/// when the new supply passes the cap. On success the caller moves the
/// lamports to the treasury and mints that many tokens to the buyer.
pub fn mint(lamports: u64, current_supply: u64) -> (r: Result<u64, Errors>)
    ensures
        lamports * TOKEN_PER_SOL > u64::MAX ==> r == Err::<u64, Errors>(Errors::Overflow),
        lamports * TOKEN_PER_SOL <= u64::MAX && current_supply + lamports * TOKEN_PER_SOL > u64::MAX
            ==> r == Err::<u64, Errors>(Errors::Overflow),
        current_supply + lamports * TOKEN_PER_SOL <= u64::MAX
            && current_supply + lamports * TOKEN_PER_SOL > SUPPLY_CAP
            ==> r == Err::<u64, Errors>(Errors::SupplyLimit),
        current_supply + lamports * TOKEN_PER_SOL <= SUPPLY_CAP
            ==> r == Ok::<u64, Errors>((lamports * TOKEN_PER_SOL) as u64),
        r is Ok ==> current_supply + r->Ok_0 <= SUPPLY_CAP,
{
    let amount = match lamports.checked_mul(TOKEN_PER_SOL) {
        Some(a) => a,
        None => { return Err(Errors::Overflow); },
    };
    let new_supply = match current_supply.checked_add(amount) {
        Some(s) => s,
        None => { return Err(Errors::Overflow); },
    };
    if new_supply > SUPPLY_CAP {
        return Err(Errors::SupplyLimit);
    }
    Ok(amount)
}

} // verus!
