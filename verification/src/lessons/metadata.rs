//! Token metadata: checks that the metadata account is the one the
//! metadata program derives for the mint, and builds the metadata the
//! program is asked to create, with the payer as sole verified creator.

use vstd::prelude::*;
use vstd::slice::slice_to_vec;
use crate::address::{Address, address_eq, find_program_address, program_address_search, seeds_view};

verus! {

/// The bytes of the token metadata program's address
/// (`metaqbxxUerdq28cj1RbAWkYQm3ybzjb6a8bt518x1s`).
pub open spec fn spec_metadata_program_id() -> Seq<u8> {
    seq![11u8, 112, 101, 177, 227, 209, 124, 69, 56, 157, 82, 127, 107, 4, 195, 205,
         88, 184, 108, 115, 26, 160, 253, 181, 73, 182, 209, 188, 3, 248, 41, 70]
}

/// `solana_address::Address::from_str_const` applied to the metadata
/// program's base-58 address; the contract claims the 32 decoded bytes.
#[verifier::external_body]
pub(crate) fn metadata_program_id() -> (r: Address)
    ensures
        r@ == spec_metadata_program_id(),
{
    solana_address::Address::from_str_const("metaqbxxUerdq28cj1RbAWkYQm3ybzjb6a8bt518x1s").to_bytes()
}

/// Why the metadata is not created.
#[derive(Debug, Clone, Copy, PartialEq, Eq, Structural)]
pub enum MetaplexError {
    InvalidMetadataAccount,
}

/// A creator listed in the metadata, with its share of royalties.
#[derive(Debug, Clone, Copy)]
pub struct Creator {
    pub address: Address,
    pub verified: bool,
    pub share: u8,
}

/// The metadata handed to the metadata program.
#[derive(Debug, Clone)]
pub struct DataV2 {
    pub name: String,
    pub symbol: String,
    pub uri: String,
    pub seller_fee_basis_points: u16,
    pub creators: Vec<Creator>,
    pub is_mutable: bool,
}

/// The seeds of a mint's metadata account: `"metadata"`, the metadata
/// program's address, the mint.
pub open spec fn metadata_seeds(mint: Seq<u8>) -> Seq<Seq<u8>> {
    seq![seq![109u8, 101, 116, 97, 100, 97, 116, 97], spec_metadata_program_id(), mint]
}

/// Builds the metadata for `mint` when `metadata` is the account the
/// metadata program derives for it; otherwise refused with
/// `InvalidMetadataAccount` (also when the derivation finds no address,
/// where the instruction's search does not return).
pub fn create_token_metadata(metadata: &Address, mint: &Address, payer: &Address, name: String,
    symbol: String, uri: String, seller_fee_basis_points: u16, is_mutable: bool) -> (r: Result<DataV2, MetaplexError>)
    ensures
        match program_address_search(metadata_seeds(mint@), spec_metadata_program_id()) {
            Some((pda, _)) => if pda == metadata@ {
                &&& r is Ok
                &&& r->Ok_0.name@ == name@
                &&& r->Ok_0.symbol@ == symbol@
                &&& r->Ok_0.uri@ == uri@
                &&& r->Ok_0.seller_fee_basis_points == seller_fee_basis_points
                &&& r->Ok_0.is_mutable == is_mutable
                &&& r->Ok_0.creators@.len() == 1
                &&& r->Ok_0.creators@[0].address == *payer
                &&& r->Ok_0.creators@[0].verified
                &&& r->Ok_0.creators@[0].share == 100
            } else {
                r == Err::<DataV2, MetaplexError>(MetaplexError::InvalidMetadataAccount)
            },
            None => r == Err::<DataV2, MetaplexError>(MetaplexError::InvalidMetadataAccount),
        },
{
    let program = metadata_program_id();
    let mut seeds: Vec<Vec<u8>> = Vec::new();
    seeds.push(vec![109u8, 101, 116, 97, 100, 97, 116, 97]);
    seeds.push(slice_to_vec(program.as_slice()));
    seeds.push(slice_to_vec(mint.as_slice()));
    assert(seeds_view(seeds@) =~= metadata_seeds(mint@));
    match find_program_address(&seeds, &program) {
        Some((pda, _bump)) => {
            if !address_eq(&pda, metadata) {
                return Err(MetaplexError::InvalidMetadataAccount);
            }
            let mut creators: Vec<Creator> = Vec::new();
            creators.push(Creator { address: *payer, verified: true, share: 100 });
            Ok(DataV2 { name, symbol, uri, seller_fee_basis_points, creators, is_mutable })
        },
        None => Err(MetaplexError::InvalidMetadataAccount),
    }
}

} // verus!
