//! 32-byte account addresses, the well-known program identifiers the
//! programs compare against, and program-derived address search.

use vstd::prelude::*;
use crate::bytes::bytes_eq;

verus! {

/// An account address: 32 bytes.
pub type Address = [u8; 32];

/// The bytes of the SPL token program identifier
/// (`TokenkegQfeZyiNwAJbNbGKPFXCWuBvf9Ss623VQ5DA`).
pub open spec fn spec_token_program_id() -> Seq<u8> {
    seq![6u8, 221, 246, 225, 215, 101, 161, 147, 217, 203, 225, 70, 206, 235, 121, 172,
         28, 180, 133, 237, 95, 91, 55, 145, 58, 140, 245, 133, 126, 255, 0, 169]
}

/// The bytes of the token-2022 program identifier
/// (`TokenzQdBNbLqP5VEhdkAS6EPFLC1PHnBqCXEpPxuEb`).
pub open spec fn spec_token_2022_program_id() -> Seq<u8> {
    seq![6u8, 221, 246, 225, 238, 117, 143, 222, 24, 66, 93, 188, 228, 108, 205, 218,
         182, 26, 252, 77, 131, 185, 13, 39, 254, 189, 249, 40, 216, 161, 139, 252]
}

/// The bytes of the associated token account program identifier
/// (`ATokenGPvbdGVxr1b2hvZbsiqW5xWH25efTNsLJA8knL`).
pub open spec fn spec_associated_token_program_id() -> Seq<u8> {
    seq![140u8, 151, 37, 143, 78, 36, 137, 241, 187, 61, 16, 41, 20, 142, 13, 131,
         11, 90, 19, 153, 218, 255, 16, 132, 4, 142, 123, 216, 219, 233, 248, 89]
}

/// The bytes of the system program identifier (`11111111111111111111111111111111`).
pub open spec fn spec_system_program_id() -> Seq<u8> {
    Seq::new(32, |i: int| 0u8)
}

/// The bytes of the identifier the market maker, the escrow and the vault
/// programs are deployed under (`22222222222222222222222222222222222222222222`).
pub open spec fn spec_program_id() -> Seq<u8> {
    seq![15u8, 30, 107, 20, 33, 192, 74, 7, 4, 49, 38, 92, 25, 197, 187, 238,
         25, 146, 186, 232, 175, 209, 205, 7, 142, 248, 175, 112, 71, 220, 17, 247]
}

/// `pinocchio_token::ID`: the token program identifier. The contract claims
/// its bytes are those of `spec_token_program_id`.
#[verifier::external_body]
pub(crate) fn token_program_id() -> (r: Address)
    ensures
        r@ == spec_token_program_id(),
{
    pinocchio_token::ID.to_bytes()
}

/// `pinocchio_token_2022::ID`: the token-2022 program identifier. The
/// contract claims its bytes are those of `spec_token_2022_program_id`.
#[verifier::external_body]
pub(crate) fn token_2022_program_id() -> (r: Address)
    ensures
        r@ == spec_token_2022_program_id(),
{
    pinocchio_token_2022::ID.to_bytes()
}

/// `pinocchio_associated_token_account::ID`: the associated token account
/// program identifier. The contract claims its bytes.
#[verifier::external_body]
pub(crate) fn associated_token_program_id() -> (r: Address)
    ensures
        r@ == spec_associated_token_program_id(),
{
    pinocchio_associated_token_account::ID.to_bytes()
}

/// `pinocchio_system::ID`: the system program identifier, 32 zero bytes.
#[verifier::external_body]
pub(crate) fn system_program_id() -> (r: Address)
    ensures
        r@ == spec_system_program_id(),
{
    pinocchio_system::ID.to_bytes()
}

/// `solana_address::Address::from_str_const` applied to the programs' own
/// identifier string; the contract claims the 32 decoded bytes.
#[verifier::external_body]
pub(crate) fn program_id() -> (r: Address)
    ensures
        r@ == spec_program_id(),
{
    solana_address::Address::from_str_const("22222222222222222222222222222222222222222222").to_bytes()
}

/// Whether two addresses are equal.
pub fn address_eq(a: &Address, b: &Address) -> (r: bool)
    ensures
        r == (a@ == b@),
{
    bytes_eq(a.as_slice(), b.as_slice())
}

/// The result of the program-derived address search of
/// `solana_address::Address::try_find_program_address` on the given seeds
/// and program identifier: the address and the bump seed found, or nothing.
pub uninterp spec fn program_address_search(seeds: Seq<Seq<u8>>, program_id: Seq<u8>) -> Option<(Seq<u8>, u8)>;

/// The byte strings held by a list of seeds.
pub open spec fn seeds_view(seeds: Seq<Vec<u8>>) -> Seq<Seq<u8>> {
    seeds.map_values(|s: Vec<u8>| s@)
}

/// `solana_address::Address::try_find_program_address`: searches the bump
/// seeds from 255 down for the first one whose hash of the seeds, the bump,
/// the program identifier and the derivation marker lies off the curve.
/// The contract only ties the result to `program_address_search` of the
/// seeds and the program identifier; the hash itself is not stated.
#[verifier::external_body]
pub(crate) fn find_program_address(seeds: &Vec<Vec<u8>>, program: &Address) -> (r: Option<(Address, u8)>)
    ensures
        match r {
            Some((a, b)) => program_address_search(seeds_view(seeds@), program@) == Some((a@, b)),
            None => program_address_search(seeds_view(seeds@), program@) is None,
        },
{
    let s: Vec<&[u8]> = seeds.iter().map(|v| v.as_slice()).collect();
    let p = solana_address::Address::new_from_array(*program);
    solana_address::Address::try_find_program_address(&s, &p).map(|(a, b)| (a.to_bytes(), b))
}

} // verus!
