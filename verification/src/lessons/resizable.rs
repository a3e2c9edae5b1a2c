//! A per-user account of variable size: its rent is topped up by the user
//! when the data grows and handed back when it shrinks.

use vstd::prelude::*;
use crate::address::{Address, address_eq};

verus! {

/// Bytes before the data: the account discriminator (8), the authority (32),
/// the bump (1) and the vector's length prefix (4).
pub const DATA_OVERHEAD: usize = 45;

/// The account space needed to store `data_len` bytes of data.
pub fn space_for(data_len: usize) -> (r: usize)
    requires
        data_len + DATA_OVERHEAD <= usize::MAX,
    ensures
        r == data_len + DATA_OVERHEAD,
{
    data_len + DATA_OVERHEAD
}

/// The stored record: its authority, its bump seed and the data.
#[derive(Debug, Clone)]
pub struct Data {
    pub auth: Address,
    pub bump: u8,
    pub data: Vec<u8>,
}

/// The record a new account starts with.
pub fn initialize(user: Address, bump: u8, new_data: Vec<u8>) -> (r: Data)
    ensures
        r.auth == user,
        r.bump == bump,
        r.data@ == new_data@,
{
    Data { auth: user, bump, data: new_data }
}

/// The record's account: the program that owns it, its lamports and the
/// record.
#[derive(Debug, Clone)]
pub struct StoredAccount {
    pub owner: Address,
    pub lamports: u64,
    pub record: Data,
}

/// Why an update is refused: the program's codes, or the runtime's
/// arithmetic overflow when the user's balance would pass `u64::MAX`.
#[derive(Debug, Clone, Copy, PartialEq, Eq, Structural)]
pub enum StorageError {
    InvalidAuthority,
    InsufficientFunds,
    Overflow,
    InvalidAccountOwner,
    ArithmeticOverflow,
}

/// Updates the record to hold `data`, where `need_lamports` is the
/// rent-exempt minimum for the new size. Refused, changing nothing, when
/// the account is not owned by `program_id`, then when `user` is not the
/// record's authority. When more lamports are needed the data is replaced
/// and the result is the shortfall, which the caller moves from the user
/// with a system transfer. When fewer are needed the data is replaced and
/// the excess goes back to the user (refused, changing nothing, if the
/// user's balance would pass `u64::MAX`); the result is 0. When the
/// account holds exactly the minimum, nothing changes and the data is not
/// replaced.
pub fn update(acc: &mut StoredAccount, program_id: &Address, user: &Address, user_lamports: &mut u64,
    data: Vec<u8>, need_lamports: u64) -> (r: Result<u64, StorageError>)
    ensures
        old(acc).owner@ != program_id@ ==> r == Err::<u64, StorageError>(StorageError::InvalidAccountOwner),
        old(acc).owner@ == program_id@ && old(acc).record.auth@ != user@
            ==> r == Err::<u64, StorageError>(StorageError::InvalidAuthority),
        r is Err ==> final(acc).lamports == old(acc).lamports && final(acc).record.data@ == old(acc).record.data@
            && *final(user_lamports) == *old(user_lamports),
        final(acc).owner == old(acc).owner,
        final(acc).record.auth == old(acc).record.auth,
        final(acc).record.bump == old(acc).record.bump,
        old(acc).owner@ == program_id@ && old(acc).record.auth@ == user@ ==> {
            &&& need_lamports > old(acc).lamports ==> r == Ok::<u64, StorageError>((need_lamports - old(acc).lamports) as u64)
                && final(acc).record.data@ == data@ && final(acc).lamports == old(acc).lamports
                && *final(user_lamports) == *old(user_lamports)
            &&& need_lamports < old(acc).lamports
                && *old(user_lamports) + (old(acc).lamports - need_lamports) <= u64::MAX
                ==> r == Ok::<u64, StorageError>(0) && final(acc).record.data@ == data@
                && final(acc).lamports == need_lamports
                && *final(user_lamports) == *old(user_lamports) + (old(acc).lamports - need_lamports)
            &&& need_lamports < old(acc).lamports
                && *old(user_lamports) + (old(acc).lamports - need_lamports) > u64::MAX
                ==> r == Err::<u64, StorageError>(StorageError::ArithmeticOverflow)
            &&& need_lamports == old(acc).lamports ==> r == Ok::<u64, StorageError>(0)
                && final(acc).record.data@ == old(acc).record.data@ && final(acc).lamports == old(acc).lamports
                && *final(user_lamports) == *old(user_lamports)
        },
{
    if !address_eq(&acc.owner, program_id) {
        return Err(StorageError::InvalidAccountOwner);
    }
    if !address_eq(&acc.record.auth, user) {
        return Err(StorageError::InvalidAuthority);
    }
    let curr = acc.lamports;
    if need_lamports > curr {
        acc.record.data = data;
        Ok(need_lamports - curr)
    } else if need_lamports < curr {
        let more = curr - need_lamports;
        match (*user_lamports).checked_add(more) {
            Some(v) => {
                acc.record.data = data;
                acc.lamports = need_lamports;
                *user_lamports = v;
                Ok(0)
            },
            None => Err(StorageError::ArithmeticOverflow),
        }
    } else {
        Ok(0)
    }
}

} // verus!
