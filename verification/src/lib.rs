//! Verified building blocks of a collection of Solana programs: an automated
//! market maker, a token escrow, lamport vaults and a set of small Anchor
//! lessons. Runtime objects (accounts, sysvars, cross-program calls) are
//! modelled as plain values; the decisions the programs take on them are
//! verified here.

pub mod bytes;
pub mod address;
pub mod program_error;
pub mod account;
pub mod amm;
pub mod escrow;
pub mod vault;
pub mod lessons;
