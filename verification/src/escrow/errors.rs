//! The escrow's own error codes.

use vstd::prelude::*;
use crate::program_error::ProgramError;

verus! {

/// The escrow's errors; each is returned to the runtime as a custom error
/// whose code is its position in this list, from 0.
#[derive(Debug, Clone, Copy, PartialEq, Eq, Structural)]
pub enum EscrowError {
    InvalidTokenOwner,
    InvalidEscrowOwner,
    AtaOwnerMismatch,
    MintOwnerMismatch,
    AtaSpaceMismatch,
    MintSpaceMismatch,
    PdaOwnerMismatch,
    PdaSpaceMismatch,
    InvalidTokenProgram,
    InvalidSystemProgram,
    AtaMintMismatch,
    EscrowMintAMismatch,
    EscrowMintBMismatch,
    EscrowMakerMismatch,
    AtaPdaDeriveMismatch,
}

impl EscrowError {
    /// The error's code.
    pub open spec fn spec_code(self) -> u32 {
        match self {
            EscrowError::InvalidTokenOwner => 0,
            EscrowError::InvalidEscrowOwner => 1,
            EscrowError::AtaOwnerMismatch => 2,
            EscrowError::MintOwnerMismatch => 3,
            EscrowError::AtaSpaceMismatch => 4,
            EscrowError::MintSpaceMismatch => 5,
            EscrowError::PdaOwnerMismatch => 6,
            EscrowError::PdaSpaceMismatch => 7,
            EscrowError::InvalidTokenProgram => 8,
            EscrowError::InvalidSystemProgram => 9,
            EscrowError::AtaMintMismatch => 10,
            EscrowError::EscrowMintAMismatch => 11,
            EscrowError::EscrowMintBMismatch => 12,
            EscrowError::EscrowMakerMismatch => 13,
            EscrowError::AtaPdaDeriveMismatch => 14,
        }
    }

    /// The error's code.
    pub fn code(&self) -> (r: u32)
        ensures
            r == self.spec_code(),
    {
        match self {
            EscrowError::InvalidTokenOwner => 0,
            EscrowError::InvalidEscrowOwner => 1,
            EscrowError::AtaOwnerMismatch => 2,
            EscrowError::MintOwnerMismatch => 3,
            EscrowError::AtaSpaceMismatch => 4,
            EscrowError::MintSpaceMismatch => 5,
            EscrowError::PdaOwnerMismatch => 6,
            EscrowError::PdaSpaceMismatch => 7,
            EscrowError::InvalidTokenProgram => 8,
            EscrowError::InvalidSystemProgram => 9,
            EscrowError::AtaMintMismatch => 10,
            EscrowError::EscrowMintAMismatch => 11,
            EscrowError::EscrowMintBMismatch => 12,
            EscrowError::EscrowMakerMismatch => 13,
            EscrowError::AtaPdaDeriveMismatch => 14,
        }
    }

    /// The displayed text as an owned string (what `to_string` gives for
    /// the error).
    pub fn to_string(&self) -> (r: String)
        ensures
            r@ == self.spec_display(),
    {
        self.to_display().to_owned()
    }

    /// The text the error is displayed with: its name.
    pub open spec fn spec_display(self) -> Seq<char> {
        match self {
            EscrowError::InvalidTokenOwner => "InvalidTokenOwner"@,
            EscrowError::InvalidEscrowOwner => "InvalidEscrowOwner"@,
            EscrowError::AtaOwnerMismatch => "AtaOwnerMismatch"@,
            EscrowError::MintOwnerMismatch => "MintOwnerMismatch"@,
            EscrowError::AtaSpaceMismatch => "AtaSpaceMismatch"@,
            EscrowError::MintSpaceMismatch => "MintSpaceMismatch"@,
            EscrowError::PdaOwnerMismatch => "PdaOwnerMismatch"@,
            EscrowError::PdaSpaceMismatch => "PdaSpaceMismatch"@,
            EscrowError::InvalidTokenProgram => "InvalidTokenProgram"@,
            EscrowError::InvalidSystemProgram => "InvalidSystemProgram"@,
            EscrowError::AtaMintMismatch => "AtaMintMismatch"@,
            EscrowError::EscrowMintAMismatch => "EscrowMintAMismatch"@,
            EscrowError::EscrowMintBMismatch => "EscrowMintBMismatch"@,
            EscrowError::EscrowMakerMismatch => "EscrowMakerMismatch"@,
            EscrowError::AtaPdaDeriveMismatch => "AtaPdaDeriveMismatch"@,
        }
    }

    /// The text the error is displayed with: its name.
    pub fn to_display(&self) -> (r: &'static str)
        ensures
            r@ == self.spec_display(),
    {
        match self {
            EscrowError::InvalidTokenOwner => "InvalidTokenOwner",
            EscrowError::InvalidEscrowOwner => "InvalidEscrowOwner",
            EscrowError::AtaOwnerMismatch => "AtaOwnerMismatch",
            EscrowError::MintOwnerMismatch => "MintOwnerMismatch",
            EscrowError::AtaSpaceMismatch => "AtaSpaceMismatch",
            EscrowError::MintSpaceMismatch => "MintSpaceMismatch",
            EscrowError::PdaOwnerMismatch => "PdaOwnerMismatch",
            EscrowError::PdaSpaceMismatch => "PdaSpaceMismatch",
            EscrowError::InvalidTokenProgram => "InvalidTokenProgram",
            EscrowError::InvalidSystemProgram => "InvalidSystemProgram",
            EscrowError::AtaMintMismatch => "AtaMintMismatch",
            EscrowError::EscrowMintAMismatch => "EscrowMintAMismatch",
            EscrowError::EscrowMintBMismatch => "EscrowMintBMismatch",
            EscrowError::EscrowMakerMismatch => "EscrowMakerMismatch",
            EscrowError::AtaPdaDeriveMismatch => "AtaPdaDeriveMismatch",
        }
    }
}

impl From<EscrowError> for ProgramError {
    fn from(error: EscrowError) -> (r: ProgramError) {
        ProgramError::Custom(error.code())
    }
}

impl vstd::std_specs::convert::FromSpecImpl<EscrowError> for ProgramError {
    open spec fn obeys_from_spec() -> bool {
        true
    }

    open spec fn from_spec(v: EscrowError) -> ProgramError {
        ProgramError::Custom(v.spec_code())
    }
}

/// The runtime error an escrow error becomes.
pub open spec fn escrow_err(e: EscrowError) -> ProgramError {
    ProgramError::Custom(e.spec_code())
}

/// Converts an escrow error into the runtime error it is returned as.
pub fn to_program_error(e: EscrowError) -> (r: ProgramError)
    ensures
        r == escrow_err(e),
{
    ProgramError::from(e)
}

} // verus!
