//! Checks that the instruction just before the current one is a system
//! transfer of an expected number of lamports between a signing, writable
//! payer and a writable recipient.

use vstd::prelude::*;
use crate::address::{Address, address_eq, system_program_id, spec_system_program_id};
use crate::bytes::le_u64_at;

verus! {

/// Why the check fails.
#[derive(Debug, Clone, Copy, PartialEq, Eq, Structural)]
pub enum ErrorCodes {
    MissingInstruction,
    NotSystemTransfer,
    InvalidInstructionData,
    IncorrectAmount,
    InsufficientAccoutns,
    NotSigner,
    FromAccountNotWritable,
    ToAccountNotWritable,
}

/// An account listed by an instruction.
#[derive(Debug, Clone, Copy)]
pub struct InstructionAccount {
    pub pubkey: Address,
    pub is_signer: bool,
    pub is_writable: bool,
}

/// An instruction of the transaction as the instructions sysvar shows it.
#[derive(Debug, Clone)]
pub struct LoadedInstruction {
    pub program_id: Address,
    pub accounts: Vec<InstructionAccount>,
    pub data: Vec<u8>,
}

/// The result of `bincode::deserialize` of the bytes as a
/// `solana_system_interface::instruction::SystemInstruction`: `None` when
/// they do not decode, `Some(Some(lamports))` for a transfer, `Some(None)`
/// for any other system instruction.
pub uninterp spec fn system_instruction_decoding(data: Seq<u8>) -> Option<Option<u64>>;

/// The little-endian `u32` in the first four bytes.
pub open spec fn le_u32_head(d: Seq<u8>) -> int {
    d[0] + 256 * d[1] + 65536 * d[2] + 16777216 * d[3]
}

/// `bincode::deserialize::<SystemInstruction>`. The contract ties the result
/// to `system_instruction_decoding` of the bytes and states bincode's
/// documented layout of a transfer: the variant index 2 as a little-endian
/// `u32`, then the lamports as a little-endian `u64` (trailing bytes are
/// accepted). Which other byte strings decode is not stated.
#[verifier::external_body]
fn decode_system_instruction(data: &[u8]) -> (r: Option<Option<u64>>)
    ensures
        r == system_instruction_decoding(data@),
        data@.len() >= 12 && le_u32_head(data@) == 2 ==> r == Some(Some(le_u64_at(data@, 4))),
{
    match bincode::deserialize::<solana_system_interface::instruction::SystemInstruction>(data) {
        Ok(solana_system_interface::instruction::SystemInstruction::Transfer { lamports }) => Some(Some(lamports)),
        Ok(_) => Some(None),
        Err(_) => None,
    }
}

/// The outcome of the check for the instruction before the current one
/// (`prev`, `None` when it could not be loaded), given the decoding of its
/// data, in the order the checks are made.
pub open spec fn transfer_check_outcome(current_index: u16, prev: Option<LoadedInstruction>,
    decoded: Option<Option<u64>>, expected_lamports: u64) -> Result<(), ErrorCodes> {
    if current_index == 0 || prev is None {
        Err(ErrorCodes::MissingInstruction)
    } else {
        let ix = prev->Some_0;
        if ix.program_id@ != spec_system_program_id() {
            Err(ErrorCodes::NotSystemTransfer)
        } else {
            match decoded {
                None => Err(ErrorCodes::InvalidInstructionData),
                Some(None) => Err(ErrorCodes::NotSystemTransfer),
                Some(Some(l)) => if l != expected_lamports {
                    Err(ErrorCodes::IncorrectAmount)
                } else if ix.accounts.len() < 2 {
                    Err(ErrorCodes::InsufficientAccoutns)
                } else if !ix.accounts[0].is_signer {
                    Err(ErrorCodes::NotSigner)
                } else if !ix.accounts[0].is_writable {
                    Err(ErrorCodes::FromAccountNotWritable)
                } else if !ix.accounts[1].is_writable {
                    Err(ErrorCodes::ToAccountNotWritable)
                } else {
                    Ok(())
                },
            }
        }
    }
}

/// The check on an instruction whose data decoded to `decoded` (see
/// `transfer_check_outcome`).
pub fn check_decoded_transfer(current_index: u16, prev: Option<&LoadedInstruction>,
    decoded: Option<Option<u64>>, expected_lamports: u64) -> (r: Result<(), ErrorCodes>)
    ensures
        r == transfer_check_outcome(current_index, match prev { Some(p) => Some(*p), None => None },
            decoded, expected_lamports),
{
    if current_index == 0 {
        return Err(ErrorCodes::MissingInstruction);
    }
    let ix = match prev {
        Some(p) => p,
        None => { return Err(ErrorCodes::MissingInstruction); },
    };
    let system = system_program_id();
    if !address_eq(&ix.program_id, &system) {
        return Err(ErrorCodes::NotSystemTransfer);
    }
    match decoded {
        None => Err(ErrorCodes::InvalidInstructionData),
        Some(None) => Err(ErrorCodes::NotSystemTransfer),
        Some(Some(l)) => {
            if l != expected_lamports {
                Err(ErrorCodes::IncorrectAmount)
            } else if ix.accounts.len() < 2 {
                Err(ErrorCodes::InsufficientAccoutns)
            } else if !ix.accounts[0].is_signer {
                Err(ErrorCodes::NotSigner)
            } else if !ix.accounts[0].is_writable {
                Err(ErrorCodes::FromAccountNotWritable)
            } else if !ix.accounts[1].is_writable {
                Err(ErrorCodes::ToAccountNotWritable)
            } else {
                Ok(())
            }
        },
    }
}

/// Checks that the instruction before the current one (at `current_index`)
/// is a system transfer of `expected_lamports` from a signing, writable
/// account to a writable one; its data is decoded with bincode.
pub fn verify_transfer(current_index: u16, prev: Option<&LoadedInstruction>, expected_lamports: u64)
    -> (r: Result<(), ErrorCodes>)
    ensures
        r == transfer_check_outcome(current_index, match prev { Some(p) => Some(*p), None => None },
            match prev { Some(p) => system_instruction_decoding(p.data@), None => None },
            expected_lamports),
{
    let decoded = match prev {
        Some(p) => decode_system_instruction(p.data.as_slice()),
        None => None,
    };
    check_decoded_transfer(current_index, prev, decoded, expected_lamports)
}

} // verus!
