//! Picking a market-maker instruction by its tag.

use vstd::prelude::*;
use crate::account::AccountView;
use crate::program_error::ProgramError;
use crate::amm::errors::{CustomError, custom};
use crate::amm::initialize::{Initialize, initialize_accounts_outcome, initialize_data_in};
use crate::amm::deposit::{Deposit, deposit_accounts_outcome, deposit_data_in, deposit_accounts_from};
use crate::amm::withdraw::{Withdraw, withdraw_data_in, withdraw_accounts_from};
use crate::amm::swap::{Swap, swap_data_in, swap_accounts_from};

verus! {

/// An instruction of the market maker with its data read and its accounts
/// taken.
pub enum AmmInstruction<'a> {
    Initialize(Initialize<'a>),
    Deposit(Deposit<'a>),
    Withdraw(Withdraw<'a>),
    Swap(Swap<'a>),
}

/// Why taking a pool creation fails: its accounts first, then its data.
pub open spec fn initialize_error(data: Seq<u8>, accounts: Seq<AccountView>) -> Option<ProgramError> {
    if initialize_accounts_outcome(accounts) is Some {
        initialize_accounts_outcome(accounts)
    } else if data.len() != 76 && data.len() != 108 {
        Some(custom(CustomError::InvalidInitializeData))
    } else {
        None
    }
}

/// Why taking a deposit fails: its data first, then its accounts.
pub open spec fn deposit_error(data: Seq<u8>, accounts: Seq<AccountView>) -> Option<ProgramError> {
    if data.len() != 32 {
        Some(custom(CustomError::InvalidDepositData))
    } else {
        deposit_accounts_outcome(accounts)
    }
}

/// Why taking a withdrawal fails: its data first, then its accounts.
pub open spec fn withdraw_error(data: Seq<u8>, accounts: Seq<AccountView>) -> Option<ProgramError> {
    if data.len() != 32 {
        Some(custom(CustomError::InvaidWithdrawData))
    } else if accounts.len() < 9 {
        Some(ProgramError::NotEnoughAccountKeys)
    } else {
        None
    }
}

/// Why taking a swap fails: too few accounts.
pub open spec fn swap_error(accounts: Seq<AccountView>) -> Option<ProgramError> {
    if accounts.len() < 7 { Some(ProgramError::NotEnoughAccountKeys) } else { None }
}

/// The first step of processing a market-maker instruction: the first byte
/// of the data picks the instruction (0 creation, 1 deposit, 2 withdrawal,
/// 3 swap), whose data (the rest) is read and whose accounts are taken;
/// empty data or another tag is refused with `InvalidInstructionData`. A
/// swap's data must hold at least 25 bytes after the tag (shorter data is
/// not accepted: the reads would go past its end).
pub fn process_instruction<'a>(accounts: &'a [AccountView], instruction_data: &[u8])
    -> (r: Result<AmmInstruction<'a>, ProgramError>)
    requires
        instruction_data@.len() >= 1 && instruction_data@[0] == 3 ==> instruction_data@.len() >= 26,
    ensures
        instruction_data@.len() == 0 || instruction_data@[0] > 3 ==> r is Err
            && r->Err_0 == ProgramError::InvalidInstructionData,
        instruction_data@.len() >= 1 && instruction_data@[0] == 0 ==> ({
            let data = instruction_data@.drop_first();
            match initialize_error(data, accounts@) {
                Some(e) => r is Err && r->Err_0 == e,
                None => r matches Ok(AmmInstruction::Initialize(i)) && initialize_data_in(i.data, data)
                    && *i.accounts.initializer == accounts@[0] && *i.accounts.mint_lp == accounts@[1]
                    && *i.accounts.config == accounts@[2],
            }
        }),
        instruction_data@.len() >= 1 && instruction_data@[0] == 1 ==> ({
            let data = instruction_data@.drop_first();
            match deposit_error(data, accounts@) {
                Some(e) => r is Err && r->Err_0 == e,
                None => r matches Ok(AmmInstruction::Deposit(d)) && deposit_data_in(d.instruction_data, data)
                    && deposit_accounts_from(d.accounts, accounts@),
            }
        }),
        instruction_data@.len() >= 1 && instruction_data@[0] == 2 ==> ({
            let data = instruction_data@.drop_first();
            match withdraw_error(data, accounts@) {
                Some(e) => r is Err && r->Err_0 == e,
                None => r matches Ok(AmmInstruction::Withdraw(w)) && withdraw_data_in(w.data, data)
                    && withdraw_accounts_from(w.accounts, accounts@),
            }
        }),
        instruction_data@.len() >= 1 && instruction_data@[0] == 3 ==> ({
            let data = instruction_data@.drop_first();
            match swap_error(accounts@) {
                Some(e) => r is Err && r->Err_0 == e,
                None => r matches Ok(AmmInstruction::Swap(s)) && swap_data_in(s.data, data)
                    && swap_accounts_from(s.accounts, accounts@),
            }
        }),
{
    let n = instruction_data.len();
    if n == 0 {
        return Err(ProgramError::InvalidInstructionData);
    }
    let tag = instruction_data[0];
    let data = vstd::slice::slice_subrange(instruction_data, 1, n);
    assert(data@ =~= instruction_data@.drop_first());
    if tag == Initialize::DISCRIMINATOR {
        Ok(AmmInstruction::Initialize(Initialize::try_from(data, accounts)?))
    } else if tag == Deposit::DISCRIMINATOR {
        Ok(AmmInstruction::Deposit(Deposit::try_from(data, accounts)?))
    } else if tag == Withdraw::DISCRIMINATOR {
        Ok(AmmInstruction::Withdraw(Withdraw::try_from(data, accounts)?))
    } else if tag == Swap::DISCRIMINATOR {
        Ok(AmmInstruction::Swap(Swap::try_from(data, accounts)?))
    } else {
        Err(ProgramError::InvalidInstructionData)
    }
}

} // verus!
