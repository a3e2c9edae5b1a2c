//! Player accounts that hold points and move them between each other; only
//! the player's authority may give points away, and never more than it
//! holds.

use vstd::prelude::*;
use crate::address::{Address, address_eq};

verus! {

/// A player: who may spend its points, and how many it holds.
#[derive(Debug, Clone, Copy)]
pub struct Player {
    pub authority: Address,
    pub points: u64,
}

/// The points every new player starts with.
pub const STARTING_POINTS: u64 = 10000;

/// A new player owned by `signer`.
pub fn init_player(signer: Address) -> (r: Player)
    ensures
        r.authority == signer,
        r.points == STARTING_POINTS,
{
    Player { authority: signer, points: STARTING_POINTS }
}

/// The account constraint that refused a transfer: the giving player's
/// authority is not the signer, or it holds fewer points than asked.
#[derive(Debug, Clone, Copy, PartialEq, Eq, Structural)]
pub enum ConstraintError {
    HasOne,
    Raw,
}

/// Moves `amount` points from `from` to `to`, signed by `authority`.
/// Refused, with both players unchanged, when `authority` is not the giving
/// player's authority, then when it holds fewer than `amount` points. The
/// receiving balance overflowing does not return, so it is left out.
pub fn transfer_points(from: &mut Player, to: &mut Player, authority: &Address, amount: u64)
    -> (r: Result<(), ConstraintError>)
    requires
        old(from).authority@ == authority@ && old(from).points >= amount
            ==> old(to).points + amount <= u64::MAX,
    ensures
        old(from).authority@ != authority@ ==> r == Err::<(), ConstraintError>(ConstraintError::HasOne),
        old(from).authority@ == authority@ && old(from).points < amount
            ==> r == Err::<(), ConstraintError>(ConstraintError::Raw),
        r is Err ==> *final(from) == *old(from) && *final(to) == *old(to),
        r is Ok ==> old(from).authority@ == authority@ && old(from).points >= amount,
        r is Ok ==> final(from).points == old(from).points - amount
            && final(to).points == old(to).points + amount
            && final(from).authority == old(from).authority
            && final(to).authority == old(to).authority,
        final(from).points + final(to).points == old(from).points + old(to).points,
{
    if !address_eq(&from.authority, authority) {
        return Err(ConstraintError::HasOne);
    }
    if from.points < amount {
        return Err(ConstraintError::Raw);
    }
    from.points = from.points - amount;
    to.points = to.points + amount;
    Ok(())
}

} // verus!
