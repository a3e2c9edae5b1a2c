//! The errors a program returns to the runtime.

use vstd::prelude::*;

verus! {

/// The runtime error kinds the programs return (a subset of the runtime's
/// own error type, which the glue maps these onto), with `Custom` carrying
/// a program-defined code.
#[derive(Debug, Clone, Copy, PartialEq, Eq, Structural)]
pub enum ProgramError {
    Custom(u32),
    InvalidArgument,
    InvalidInstructionData,
    InvalidAccountData,
    IncorrectProgramId,
    MissingRequiredSignature,
    NotEnoughAccountKeys,
    InvalidAccountOwner,
    ArithmeticOverflow,
    InvalidSeeds,
}

/// The result of running an instruction: nothing, or an error.
pub type ProgramResult = Result<(), ProgramError>;

} // verus!
