//! A token escrow: a maker deposits one token and names the amount of a
//! second token they want; a taker pays it and receives the deposit, or the
//! maker takes the deposit back.

pub mod errors;
pub mod state;
pub mod util;
pub mod make;
pub mod take;
pub mod refund;
pub mod processor;
pub mod amounts;
