//! The small Anchor programs of a Solana course, each program's
//! instruction logic on plain values: the accounts the framework
//! deserialises are passed as records, sysvar readings and cross-program
//! calls stay with the caller.

pub mod basics;
pub mod storage;
pub mod points;
pub mod owner;
pub mod donate;
pub mod token_sale;
pub mod lamport_vault;
pub mod resizable;
pub mod airdrop;
pub mod check_transfer;
pub mod clock;
pub mod metadata;
pub mod token_escrow;
pub mod flash_loan;
pub mod tokens;
pub mod auction;
