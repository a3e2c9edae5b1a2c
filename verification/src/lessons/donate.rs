//! Donations into a program account that only its named withdrawer may
//! empty: the first donation names the withdrawer, later ones must name the
//! same one, and a withdrawal moves lamports from the account to it.

use vstd::prelude::*;
use crate::address::{Address, address_eq, system_program_id, spec_system_program_id};

verus! {

/// The donation account: the withdrawer it names and the lamports it holds.
#[derive(Debug, Clone, Copy)]
pub struct Pda {
    pub withdrawer: Address,
    pub lamports: u64,
}

/// The program's own refusals.
#[derive(Debug, Clone, Copy, PartialEq, Eq, Structural)]
pub enum ErrorCodes {
    MismatchWithdrawer,
    Insufficient,
    DonateMismatchWithdrawer,
}

/// Why a withdrawal is refused: one of the program's codes, or the runtime's
/// arithmetic overflow when the withdrawer's balance would pass `u64::MAX`.
#[derive(Debug, Clone, Copy, PartialEq, Eq, Structural)]
pub enum WithdrawError {
    Code(ErrorCodes),
    ArithmeticOverflow,
}

/// Whether the account names no withdrawer yet: its data is empty, or the
/// field holds the system program's address (all zeros, as in a new account).
pub open spec fn names_no_withdrawer(pda: Pda, data_is_empty: bool) -> bool {
    data_is_empty || pda.withdrawer@ == spec_system_program_id()
}

/// Checks a donation naming `withdrawer`: an account that names nobody yet
/// takes that withdrawer; one that names another is refused with
/// `MismatchWithdrawer`. On success the caller moves the donated lamports
/// in with a system transfer.
pub fn donate(pda: &mut Pda, data_is_empty: bool, withdrawer: &Address) -> (r: Result<(), ErrorCodes>)
    ensures
        names_no_withdrawer(*old(pda), data_is_empty) ==> r is Ok
            && final(pda).withdrawer == *withdrawer && final(pda).lamports == old(pda).lamports,
        !names_no_withdrawer(*old(pda), data_is_empty) && old(pda).withdrawer@ == withdrawer@
            ==> r is Ok && *final(pda) == *old(pda),
        !names_no_withdrawer(*old(pda), data_is_empty) && old(pda).withdrawer@ != withdrawer@
            ==> r == Err::<(), ErrorCodes>(ErrorCodes::MismatchWithdrawer) && *final(pda) == *old(pda),
{
    let system = system_program_id();
    if data_is_empty || address_eq(&pda.withdrawer, &system) {
        pda.withdrawer = *withdrawer;
        Ok(())
    } else if address_eq(&pda.withdrawer, withdrawer) {
        Ok(())
    } else {
        Err(ErrorCodes::MismatchWithdrawer)
    }
}

/// Moves `amount` lamports from the account to the signing withdrawer,
/// whose balance is `withdrawer_lamports`. A signer that is not the named
/// withdrawer gets `Ok` with nothing moved. Refused with `Insufficient`
/// when the account holds less than `amount`, and with the runtime's
/// overflow when the withdrawer's balance would pass `u64::MAX`; a refusal
/// changes nothing.
pub fn withdraw(pda: &mut Pda, withdrawer: &Address, withdrawer_lamports: &mut u64, amount: u64)
    -> (r: Result<(), WithdrawError>)
    ensures
        old(pda).withdrawer@ != withdrawer@ ==> r is Ok,
        old(pda).withdrawer@ == withdrawer@ && amount > old(pda).lamports
            ==> r == Err::<(), WithdrawError>(WithdrawError::Code(ErrorCodes::Insufficient)),
        old(pda).withdrawer@ == withdrawer@ && amount <= old(pda).lamports
            && *old(withdrawer_lamports) + amount > u64::MAX
            ==> r == Err::<(), WithdrawError>(WithdrawError::ArithmeticOverflow),
        old(pda).withdrawer@ == withdrawer@ && amount <= old(pda).lamports
            && *old(withdrawer_lamports) + amount <= u64::MAX
            ==> r is Ok && final(pda).lamports == old(pda).lamports - amount
                && *final(withdrawer_lamports) == *old(withdrawer_lamports) + amount
                && final(pda).withdrawer == old(pda).withdrawer,
        r is Err || old(pda).withdrawer@ != withdrawer@
            ==> *final(pda) == *old(pda) && *final(withdrawer_lamports) == *old(withdrawer_lamports),
        final(pda).lamports + *final(withdrawer_lamports) == old(pda).lamports + *old(withdrawer_lamports),
{
    if !address_eq(withdrawer, &pda.withdrawer) {
        return Ok(());
    }
    if amount > pda.lamports {
        return Err(WithdrawError::Code(ErrorCodes::Insufficient));
    }
    match (*withdrawer_lamports).checked_add(amount) {
        Some(v) => {
            pda.lamports = pda.lamports - amount;
            *withdrawer_lamports = v;
            Ok(())
        },
        None => Err(WithdrawError::ArithmeticOverflow),
    }
}

} // verus!
