//! An airdrop claimed with a distributor's signed message: the instruction
//! just before the claim must be a signature check of the Ed25519 program
//! whose single message names the recipient and the amount, signed by the
//! expected distributor.

use vstd::prelude::*;
use crate::address::{Address, address_eq};
use crate::bytes::{le_u16_at, le_u64_at, read_u16_le, read_u64_le, read_array};

verus! {

/// Bytes of the signature-check header that precede the offsets.
pub const HEADER_LEN: usize = 16;
/// Bytes of a public key.
pub const PUBKEY_LEN: usize = 32;
/// Bytes of a signature.
pub const SIGNATURE_LEN: usize = 64;
/// Bytes of the signed message: the recipient (32) and the amount (8).
pub const MSG_LEN: usize = 40;
/// Where the offsets start in the signature-check data.
pub const SHIFT: usize = 2;
/// The instruction index meaning "this same instruction".
pub const THIS_INDEX: usize = 65535;

/// The bytes of the Ed25519 signature program's address
/// (`Ed25519SigVerify111111111111111111111111111`).
pub open spec fn spec_ed25519_program_id() -> Seq<u8> {
    seq![3u8, 125, 70, 214, 124, 147, 251, 190, 18, 249, 66, 143, 131, 141, 64, 255,
         5, 112, 116, 73, 39, 244, 138, 100, 252, 202, 112, 68, 128, 0, 0, 0]
}

/// `solana_address::Address::from_str_const` applied to the Ed25519
/// program's base-58 address; the contract claims the 32 decoded bytes.
#[verifier::external_body]
pub(crate) fn ed25519_program_id() -> (r: Address)
    ensures
        r@ == spec_ed25519_program_id(),
{
    solana_address::Address::from_str_const("Ed25519SigVerify111111111111111111111111111").to_bytes()
}

/// Why a claim is refused.
#[allow(non_camel_case_types)]
#[derive(Debug, Clone, Copy, PartialEq, Eq, Structural)]
pub enum AirdropError {
    InvalidInstructionSysvar,
    BadEd25519Program,
    BadEd25519Account,
    DistributorMismatch,
    RecipientMismatch,
    BadEd25519HEADER_LENGTH,
    Overflow,
    NoSignatureFound,
}

/// An instruction of the transaction as the instructions sysvar shows it:
/// the program it calls, how many accounts it lists and its data.
#[derive(Debug, Clone)]
pub struct IntrospectedInstruction {
    pub program_id: Address,
    pub num_accounts: usize,
    pub data: Vec<u8>,
}

/// A claim that was accepted: who signed it, who receives and how much.
#[derive(Debug, Clone, Copy)]
pub struct AirdropClaim {
    pub distributor: Address,
    pub recipient: Address,
    pub amount: u64,
}

/// Reads the `i`-th little-endian `u16` of `data`; refused with `Overflow`
/// when it does not lie inside the data.
pub fn read_u16(data: &[u8], i: usize) -> (r: Result<u16, AirdropError>)
    ensures
        2 * i + 2 <= data@.len() ==> r == Ok::<u16, AirdropError>(le_u16_at(data@, 2 * i)),
        2 * i + 2 > data@.len() ==> r == Err::<u16, AirdropError>(AirdropError::Overflow),
{
    let n: usize = data.len();
    let start = match i.checked_mul(2) {
        Some(s) => s,
        None => { return Err(AirdropError::Overflow); },
    };
    let end = match start.checked_add(2) {
        Some(e) => e,
        None => { return Err(AirdropError::Overflow); },
    };
    if end > n {
        return Err(AirdropError::Overflow);
    }
    Ok(read_u16_le(data, start))
}

/// The `i`-th offset field of the signature-check data (after the two
/// leading bytes).
pub open spec fn field(d: Seq<u8>, i: int) -> int {
    le_u16_at(d, SHIFT + 2 * i) as int
}

/// The outcome of a claim whose instruction stands at `current_index`,
/// where `prev` is the instruction before it (`None` when it could not be
/// loaded): the accepted distributor, recipient and amount, or the refusal,
/// checked in this order.
pub open spec fn claim_outcome(current_index: u16, prev: Option<IntrospectedInstruction>,
    expected_distributor: Seq<u8>, recipient: Seq<u8>) -> Result<(Seq<u8>, Seq<u8>, u64), AirdropError> {
    if current_index == 0 {
        Err(AirdropError::NoSignatureFound)
    } else if prev is None {
        Err(AirdropError::InvalidInstructionSysvar)
    } else {
        let ix = prev->Some_0;
        let d = ix.data@;
        let len = d.len() as int;
        let sig_off = field(d, 0);
        let pk_off = field(d, 2);
        let msg_off = field(d, 4);
        let msg_len = field(d, 5);
        if ix.program_id@ != spec_ed25519_program_id() {
            Err(AirdropError::InvalidInstructionSysvar)
        } else if ix.num_accounts != 0 {
            Err(AirdropError::BadEd25519Account)
        } else if len <= HEADER_LEN || d[0] == 0 {
            Err(AirdropError::BadEd25519HEADER_LENGTH)
        } else if field(d, 1) != THIS_INDEX || field(d, 3) != THIS_INDEX || field(d, 6) != THIS_INDEX
            || sig_off < HEADER_LEN || pk_off < HEADER_LEN || msg_off < HEADER_LEN
            || sig_off + SIGNATURE_LEN > len || pk_off + PUBKEY_LEN > len || msg_off + msg_len > len
            || msg_len != MSG_LEN {
            Err(AirdropError::InvalidInstructionSysvar)
        } else if d.subrange(pk_off, pk_off + PUBKEY_LEN) != expected_distributor {
            Err(AirdropError::DistributorMismatch)
        } else if d.subrange(msg_off, msg_off + 32) != recipient {
            Err(AirdropError::RecipientMismatch)
        } else {
            Ok((expected_distributor, recipient, le_u64_at(d, msg_off + 32)))
        }
    }
}

/// Checks a claim against the instruction before it (see `claim_outcome`).
pub fn claim(current_index: u16, prev: Option<&IntrospectedInstruction>, expected_distributor: &Address,
    recipient: &Address) -> (r: Result<AirdropClaim, AirdropError>)
    ensures
        match (r, claim_outcome(current_index, match prev { Some(p) => Some(*p), None => None },
            expected_distributor@, recipient@)) {
            (Ok(c), Ok((dist, rec, amount))) => c.distributor@ == dist && c.recipient@ == rec && c.amount == amount,
            (Err(e), Err(f)) => e == f,
            _ => false,
        },
{
    if current_index == 0 {
        return Err(AirdropError::NoSignatureFound);
    }
    let ix = match prev {
        Some(p) => p,
        None => { return Err(AirdropError::InvalidInstructionSysvar); },
    };
    let ed25519 = ed25519_program_id();
    if !address_eq(&ix.program_id, &ed25519) {
        return Err(AirdropError::InvalidInstructionSysvar);
    }
    if ix.num_accounts != 0 {
        return Err(AirdropError::BadEd25519Account);
    }
    let data = ix.data.as_slice();
    let data_len = data.len();
    if data_len <= HEADER_LEN {
        return Err(AirdropError::BadEd25519HEADER_LENGTH);
    }
    if data[0] == 0 {
        return Err(AirdropError::BadEd25519HEADER_LENGTH);
    }
    let signature_offset = read_u16_le(data, SHIFT) as usize;
    let signature_instruction_index = read_u16_le(data, SHIFT + 2) as usize;
    let publickey_offset = read_u16_le(data, SHIFT + 4) as usize;
    let publickey_instruction_index = read_u16_le(data, SHIFT + 6) as usize;
    let message_offset = read_u16_le(data, SHIFT + 8) as usize;
    let message_length = read_u16_le(data, SHIFT + 10) as usize;
    let message_instruction_index = read_u16_le(data, SHIFT + 12) as usize;
    if signature_instruction_index != THIS_INDEX || publickey_instruction_index != THIS_INDEX
        || message_instruction_index != THIS_INDEX {
        return Err(AirdropError::InvalidInstructionSysvar);
    }
    if signature_offset < HEADER_LEN || publickey_offset < HEADER_LEN || message_offset < HEADER_LEN {
        return Err(AirdropError::InvalidInstructionSysvar);
    }
    if signature_offset + SIGNATURE_LEN > data_len || publickey_offset + PUBKEY_LEN > data_len
        || message_offset + message_length > data_len {
        return Err(AirdropError::InvalidInstructionSysvar);
    }
    if message_length != MSG_LEN {
        return Err(AirdropError::InvalidInstructionSysvar);
    }
    let distributor: Address = read_array(data, publickey_offset);
    let amount = read_u64_le(data, message_offset + 32);
    if !address_eq(&distributor, expected_distributor) {
        return Err(AirdropError::DistributorMismatch);
    }
    let rec: Address = read_array(data, message_offset);
    if !address_eq(&rec, recipient) {
        return Err(AirdropError::RecipientMismatch);
    }
    Ok(AirdropClaim { distributor, recipient: rec, amount })
}

} // verus!
