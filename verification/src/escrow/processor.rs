//! Picking an escrow instruction by its tag.

use vstd::prelude::*;
use crate::account::AccountView;
use crate::program_error::ProgramError;
use crate::escrow::make::{Make, make_accounts_error, make_data_in, make_accounts_from, make_data_refused};
use crate::escrow::take::{Take, take_accounts_error, take_from};
use crate::escrow::refund::{Refund, refund_accounts_error, refund_from};

verus! {

/// An escrow instruction with its data read and its accounts taken.
pub enum EscrowInstruction<'a> {
    Make(Make<'a>),
    Take(Take<'a>),
    Refund(Refund<'a>),
}

/// The first step of processing an escrow instruction: the first byte of
/// the data picks it (0 opening, 1 take, 2 refund; a take or a refund
/// ignores the rest of the data); empty data, another tag and opening data
/// that `make_data_refused` refuses are refused with `InvalidInstructionData`.
pub fn process_instructions<'a>(accounts: &'a [AccountView], instruction_data: &[u8])
    -> (r: Result<EscrowInstruction<'a>, ProgramError>)
    ensures
        instruction_data@.len() == 0 || instruction_data@[0] > 2 ==> r is Err
            && r->Err_0 == ProgramError::InvalidInstructionData,
        instruction_data@.len() >= 1 && instruction_data@[0] == 0 ==> ({
            let data = instruction_data@.drop_first();
            if make_data_refused(data) {
                r is Err && r->Err_0 == ProgramError::InvalidInstructionData
            } else {
                match make_accounts_error(accounts@) {
                    Some(e) => r is Err && r->Err_0 == e,
                    None => r matches Ok(EscrowInstruction::Make(m)) && make_data_in(m.data, data)
                        && make_accounts_from(m.accounts, accounts@),
                }
            }
        }),
        instruction_data@.len() >= 1 && instruction_data@[0] == 1 ==> match take_accounts_error(accounts@) {
            Some(e) => r is Err && r->Err_0 == e,
            None => r matches Ok(EscrowInstruction::Take(t)) && take_from(t, accounts@),
        },
        instruction_data@.len() >= 1 && instruction_data@[0] == 2 ==> match refund_accounts_error(accounts@) {
            Some(e) => r is Err && r->Err_0 == e,
            None => r matches Ok(EscrowInstruction::Refund(f)) && refund_from(f, accounts@),
        },
{
    let n = instruction_data.len();
    if n == 0 {
        return Err(ProgramError::InvalidInstructionData);
    }
    let tag = instruction_data[0];
    let data = vstd::slice::slice_subrange(instruction_data, 1, n);
    assert(data@ =~= instruction_data@.drop_first());
    if tag == Make::DISCRIMINATOR {
        Ok(EscrowInstruction::Make(Make::try_from(data, accounts)?))
    } else if tag == Take::DISCRIMINATOR {
        Ok(EscrowInstruction::Take(Take::try_from(accounts)?))
    } else if tag == Refund::DISCRIMINATOR {
        Ok(EscrowInstruction::Refund(Refund::try_from(accounts)?))
    } else {
        Err(ProgramError::InvalidInstructionData)
    }
}

} // verus!
