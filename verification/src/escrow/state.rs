//! The escrow record kept in the escrow account.

use vstd::prelude::*;
use vstd::slice::slice_to_vec;
use crate::account::AccountView;
use crate::address::{Address, seeds_view, find_program_address, program_address_search,
    program_id, spec_program_id};
use crate::bytes::{le_u64_at, u64_le, read_array, read_u64_le, push_bytes, push_u64_le,
    u64_to_le_array, lemma_u64_le_roundtrip};
use crate::program_error::ProgramError;

verus! {

/// An escrow: the maker's seed, the maker, the deposited mint, the wanted
/// mint, the amount wanted and the bump of the escrow's address.
#[derive(Debug, Clone, Copy)]
pub struct Escrow {
    pub seed: u64,
    pub maker: Address,
    pub mint_a: Address,
    pub mint_b: Address,
    pub receive: u64,
    pub bump: u8,
}

/// The first seed of an escrow's address: `escrow`.
pub open spec fn spec_escrow_seed_prefix() -> Seq<u8> {
    seq![101u8, 115, 99, 114, 111, 119]
}

/// The seeds of the escrow of `maker` under `seed`: `escrow`, the maker and
/// the seed's little-endian bytes.
pub open spec fn escrow_seeds(maker: Seq<u8>, seed: u64) -> Seq<Seq<u8>> {
    seq![spec_escrow_seed_prefix(), maker, u64_le(seed)]
}

/// The seeds an escrow signs with: its address seeds and its bump.
pub open spec fn escrow_signer_seeds(maker: Seq<u8>, seed: u64, bump: u8) -> Seq<Seq<u8>> {
    escrow_seeds(maker, seed).push(seq![bump])
}

impl Escrow {
    /// The length of an escrow account: three addresses, two `u64` and a byte.
    pub const SIZE: usize = 113;

    /// The record's bytes: the seed, the three addresses, the amount wanted
    /// (both little-endian) and the bump.
    pub open spec fn spec_bytes(self) -> Seq<u8> {
        u64_le(self.seed) + self.maker@ + self.mint_a@ + self.mint_b@ + u64_le(self.receive)
            + seq![self.bump]
    }

    /// `self` is the record held in `b`.
    pub open spec fn read_from(self, b: Seq<u8>) -> bool {
        &&& b.len() == 113
        &&& self.seed == le_u64_at(b, 0)
        &&& self.maker@ == b.subrange(8, 40)
        &&& self.mint_a@ == b.subrange(40, 72)
        &&& self.mint_b@ == b.subrange(72, 104)
        &&& self.receive == le_u64_at(b, 104)
        &&& self.bump == b[112]
    }

    /// The bytes `escrow`.
    pub fn seed_prefix() -> (r: Vec<u8>)
        ensures
            r@ == spec_escrow_seed_prefix(),
    {
        let r = vec![101u8, 115, 99, 114, 111, 119];
        assert(r@ =~= spec_escrow_seed_prefix());
        r
    }

    /// Reads the record from 113 bytes.
    pub fn from_bytes(bytes: &[u8]) -> (r: Escrow)
        requires
            bytes@.len() == 113,
        ensures
            r.read_from(bytes@),
    {
        Escrow {
            seed: read_u64_le(bytes, 0),
            maker: read_array::<32>(bytes, 8),
            mint_a: read_array::<32>(bytes, 40),
            mint_b: read_array::<32>(bytes, 72),
            receive: read_u64_le(bytes, 104),
            bump: bytes[112],
        }
    }

    /// The record's 113 bytes.
    pub fn to_bytes(&self) -> (r: Vec<u8>)
        ensures
            r@ == self.spec_bytes(),
            r@.len() == 113,
    {
        proof {
            lemma_u64_le_roundtrip(self.seed);
            lemma_u64_le_roundtrip(self.receive);
        }
        let mut out: Vec<u8> = Vec::new();
        push_u64_le(&mut out, self.seed);
        push_bytes(&mut out, self.maker.as_slice());
        push_bytes(&mut out, self.mint_a.as_slice());
        push_bytes(&mut out, self.mint_b.as_slice());
        push_u64_le(&mut out, self.receive);
        out.push(self.bump);
        assert(out@ =~= self.spec_bytes());
        out
    }

    /// Reads the escrow from its account: the data must be 113 bytes long,
    /// then the account must be owned by this program.
    pub fn from_account_view(account_view: &AccountView) -> (r: Result<Escrow, ProgramError>)
        ensures
            account_view.data@.len() != 113 ==> r is Err && r->Err_0 == ProgramError::InvalidAccountData,
            account_view.data@.len() == 113 && account_view.owner@ != spec_program_id() ==> r is Err
                && r->Err_0 == ProgramError::InvalidAccountOwner,
            account_view.data@.len() == 113 && account_view.owner@ == spec_program_id() ==> (r matches Ok(e)
                && e.read_from(account_view.data@)),
    {
        if account_view.data_len() != Escrow::SIZE {
            return Err(ProgramError::InvalidAccountData);
        }
        let id = program_id();
        if !account_view.owned_by(&id) {
            return Err(ProgramError::InvalidAccountOwner);
        }
        Ok(Escrow::from_bytes(account_view.data.as_slice()))
    }

    /// Checks the length of escrow bytes about to be written and reads the
    /// record they hold.
    pub fn load_mut(bytes: &[u8]) -> (r: Result<Escrow, ProgramError>)
        ensures
            bytes@.len() != 113 ==> r is Err && r->Err_0 == ProgramError::InvalidAccountData,
            bytes@.len() == 113 ==> (r matches Ok(e) && e.read_from(bytes@)),
    {
        if bytes.len() != Escrow::SIZE {
            return Err(ProgramError::InvalidAccountData);
        }
        Ok(Escrow::from_bytes(bytes))
    }

    /// The seeds of the escrow of `maker` under `seed`.
    pub fn seeds(maker_key: &Address, seed: u64) -> (r: Vec<Vec<u8>>)
        ensures
            seeds_view(r@) == escrow_seeds(maker_key@, seed),
    {
        let mut s: Vec<Vec<u8>> = Vec::new();
        s.push(Escrow::seed_prefix());
        s.push(slice_to_vec(maker_key.as_slice()));
        let le = u64_to_le_array(seed);
        s.push(slice_to_vec(le.as_slice()));
        assert(seeds_view(s@) =~= escrow_seeds(maker_key@, seed));
        s
    }

    /// The seeds the escrow of `maker` under `seed` signs with.
    pub fn signer_seeds(maker_key: &Address, seed: u64, bump: u8) -> (r: Vec<Vec<u8>>)
        ensures
            seeds_view(r@) == escrow_signer_seeds(maker_key@, seed, bump),
    {
        let mut s = Escrow::seeds(maker_key, seed);
        let b = vec![bump];
        assert(b@ =~= seq![bump]);
        s.push(b);
        assert(seeds_view(s@) =~= escrow_signer_seeds(maker_key@, seed, bump));
        s
    }

    /// The address and bump of the escrow of `maker_key` under `seed`,
    /// derived from this program's identifier.
    pub fn derive_escrow_pda(maker_key: &Address, seed: u64) -> (r: Option<(Address, u8)>)
        ensures
            match r {
                Some((a, b)) => program_address_search(escrow_seeds(maker_key@, seed),
                    spec_program_id()) == Some((a@, b)),
                None => program_address_search(escrow_seeds(maker_key@, seed), spec_program_id()) is None,
            },
    {
        let seeds = Escrow::seeds(maker_key, seed);
        let id = program_id();
        find_program_address(&seeds, &id)
    }
}

/// An escrow written to its 113 bytes and read back is the same escrow.
pub proof fn lemma_escrow_bytes_roundtrip(e: Escrow, read: Escrow)
    requires
        read.read_from(e.spec_bytes()),
    ensures
        read == e,
{
    broadcast use vstd::array::group_array_axioms;
    lemma_u64_le_roundtrip(e.seed);
    lemma_u64_le_roundtrip(e.receive);
    let b = e.spec_bytes();
    assert(b.subrange(0, 8) =~= u64_le(e.seed));
    assert(b.subrange(104, 112) =~= u64_le(e.receive));
    assert(read.maker =~= e.maker);
    assert(read.mint_a =~= e.mint_a);
    assert(read.mint_b =~= e.mint_b);
}

} // verus!
