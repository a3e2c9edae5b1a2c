//! A constant-product market maker: its configuration account, the data of
//! its four instructions and the checks and amounts each one decides.

pub mod errors;
pub mod helper;
pub mod state;
pub mod deposit;
pub mod withdraw;
pub mod swap;
pub mod initialize;
pub mod processor;
