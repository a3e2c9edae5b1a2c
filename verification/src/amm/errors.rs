//! The market maker's own error codes.

use vstd::prelude::*;
use crate::program_error::ProgramError;

verus! {

/// The market maker's errors; each is returned to the runtime as a custom
/// error whose code is its position in this list, from 0.
#[derive(Debug, Clone, Copy, PartialEq, Eq, Structural)]
pub enum CustomError {
    AtaOwnerMismatch,
    AtaPdaDeriveMismatch,
    AtaSpaceMismatch,
    AtaMintMismatch,
    MintOwnerMismatch,
    MintSpaceMismatch,
    PdaOwnerMismatch,
    PdaSpaceMismatch,
    InvalidTokenProgram,
    InvalidSystemProgram,
    NotInitialized,
    Expired,
    LoadMintFailed,
    LoadValutXFailed,
    LoadValutYFailed,
    InvalidAmmState,
    XYExceedMax,
    InvaidWithdrawData,
    InvalidDepositData,
    InvalidInitializeData,
    InvalidSwapData,
    WithdrawExpired,
    WithdrawAmountTooSmall,
    AddressConvertError,
    SwapFailed,
}

impl CustomError {
    /// The error's code.
    pub open spec fn spec_code(self) -> u32 {
        match self {
            CustomError::AtaOwnerMismatch => 0,
            CustomError::AtaPdaDeriveMismatch => 1,
            CustomError::AtaSpaceMismatch => 2,
            CustomError::AtaMintMismatch => 3,
            CustomError::MintOwnerMismatch => 4,
            CustomError::MintSpaceMismatch => 5,
            CustomError::PdaOwnerMismatch => 6,
            CustomError::PdaSpaceMismatch => 7,
            CustomError::InvalidTokenProgram => 8,
            CustomError::InvalidSystemProgram => 9,
            CustomError::NotInitialized => 10,
            CustomError::Expired => 11,
            CustomError::LoadMintFailed => 12,
            CustomError::LoadValutXFailed => 13,
            CustomError::LoadValutYFailed => 14,
            CustomError::InvalidAmmState => 15,
            CustomError::XYExceedMax => 16,
            CustomError::InvaidWithdrawData => 17,
            CustomError::InvalidDepositData => 18,
            CustomError::InvalidInitializeData => 19,
            CustomError::InvalidSwapData => 20,
            CustomError::WithdrawExpired => 21,
            CustomError::WithdrawAmountTooSmall => 22,
            CustomError::AddressConvertError => 23,
            CustomError::SwapFailed => 24,
        }
    }

    /// The error's code.
    pub fn code(&self) -> (r: u32)
        ensures
            r == self.spec_code(),
    {
        match self {
            CustomError::AtaOwnerMismatch => 0,
            CustomError::AtaPdaDeriveMismatch => 1,
            CustomError::AtaSpaceMismatch => 2,
            CustomError::AtaMintMismatch => 3,
            CustomError::MintOwnerMismatch => 4,
            CustomError::MintSpaceMismatch => 5,
            CustomError::PdaOwnerMismatch => 6,
            CustomError::PdaSpaceMismatch => 7,
            CustomError::InvalidTokenProgram => 8,
            CustomError::InvalidSystemProgram => 9,
            CustomError::NotInitialized => 10,
            CustomError::Expired => 11,
            CustomError::LoadMintFailed => 12,
            CustomError::LoadValutXFailed => 13,
            CustomError::LoadValutYFailed => 14,
            CustomError::InvalidAmmState => 15,
            CustomError::XYExceedMax => 16,
            CustomError::InvaidWithdrawData => 17,
            CustomError::InvalidDepositData => 18,
            CustomError::InvalidInitializeData => 19,
            CustomError::InvalidSwapData => 20,
            CustomError::WithdrawExpired => 21,
            CustomError::WithdrawAmountTooSmall => 22,
            CustomError::AddressConvertError => 23,
            CustomError::SwapFailed => 24,
        }
    }

    /// The displayed text as an owned string (what `to_string` gives for
    /// the error).
    pub fn to_string(&self) -> (r: String)
        ensures
            r@ == self.spec_display(),
    {
        self.to_display().to_owned()
    }

    /// The text the error is displayed with: `CustomError: ` and its name.
    pub open spec fn spec_display(self) -> Seq<char> {
        match self {
            CustomError::AtaOwnerMismatch => "CustomError: AtaOwnerMismatch"@,
            CustomError::AtaPdaDeriveMismatch => "CustomError: AtaPdaDeriveMismatch"@,
            CustomError::AtaSpaceMismatch => "CustomError: AtaSpaceMismatch"@,
            CustomError::AtaMintMismatch => "CustomError: AtaMintMismatch"@,
            CustomError::MintOwnerMismatch => "CustomError: MintOwnerMismatch"@,
            CustomError::MintSpaceMismatch => "CustomError: MintSpaceMismatch"@,
            CustomError::PdaOwnerMismatch => "CustomError: PdaOwnerMismatch"@,
            CustomError::PdaSpaceMismatch => "CustomError: PdaSpaceMismatch"@,
            CustomError::InvalidTokenProgram => "CustomError: InvalidTokenProgram"@,
            CustomError::InvalidSystemProgram => "CustomError: InvalidSystemProgram"@,
            CustomError::NotInitialized => "CustomError: NotInitialized"@,
            CustomError::Expired => "CustomError: Expired"@,
            CustomError::LoadMintFailed => "CustomError: LoadMintFailed"@,
            CustomError::LoadValutXFailed => "CustomError: LoadValutXFailed"@,
            CustomError::LoadValutYFailed => "CustomError: LoadValutYFailed"@,
            CustomError::InvalidAmmState => "CustomError: InvalidAmmState"@,
            CustomError::XYExceedMax => "CustomError: XYExceedMax"@,
            CustomError::InvaidWithdrawData => "CustomError: InvaidWithdrawData"@,
            CustomError::InvalidDepositData => "CustomError: InvalidDepositData"@,
            CustomError::InvalidInitializeData => "CustomError: InvalidInitializeData"@,
            CustomError::InvalidSwapData => "CustomError: InvalidSwapData"@,
            CustomError::WithdrawExpired => "CustomError: WithdrawExpired"@,
            CustomError::WithdrawAmountTooSmall => "CustomError: WithdrawAmountTooSmall"@,
            CustomError::AddressConvertError => "CustomError: AddressConvertError"@,
            CustomError::SwapFailed => "CustomError: SwapFailed"@,
        }
    }

    /// The text the error is displayed with: `CustomError: ` and its name.
    pub fn to_display(&self) -> (r: &'static str)
        ensures
            r@ == self.spec_display(),
    {
        match self {
            CustomError::AtaOwnerMismatch => "CustomError: AtaOwnerMismatch",
            CustomError::AtaPdaDeriveMismatch => "CustomError: AtaPdaDeriveMismatch",
            CustomError::AtaSpaceMismatch => "CustomError: AtaSpaceMismatch",
            CustomError::AtaMintMismatch => "CustomError: AtaMintMismatch",
            CustomError::MintOwnerMismatch => "CustomError: MintOwnerMismatch",
            CustomError::MintSpaceMismatch => "CustomError: MintSpaceMismatch",
            CustomError::PdaOwnerMismatch => "CustomError: PdaOwnerMismatch",
            CustomError::PdaSpaceMismatch => "CustomError: PdaSpaceMismatch",
            CustomError::InvalidTokenProgram => "CustomError: InvalidTokenProgram",
            CustomError::InvalidSystemProgram => "CustomError: InvalidSystemProgram",
            CustomError::NotInitialized => "CustomError: NotInitialized",
            CustomError::Expired => "CustomError: Expired",
            CustomError::LoadMintFailed => "CustomError: LoadMintFailed",
            CustomError::LoadValutXFailed => "CustomError: LoadValutXFailed",
            CustomError::LoadValutYFailed => "CustomError: LoadValutYFailed",
            CustomError::InvalidAmmState => "CustomError: InvalidAmmState",
            CustomError::XYExceedMax => "CustomError: XYExceedMax",
            CustomError::InvaidWithdrawData => "CustomError: InvaidWithdrawData",
            CustomError::InvalidDepositData => "CustomError: InvalidDepositData",
            CustomError::InvalidInitializeData => "CustomError: InvalidInitializeData",
            CustomError::InvalidSwapData => "CustomError: InvalidSwapData",
            CustomError::WithdrawExpired => "CustomError: WithdrawExpired",
            CustomError::WithdrawAmountTooSmall => "CustomError: WithdrawAmountTooSmall",
            CustomError::AddressConvertError => "CustomError: AddressConvertError",
            CustomError::SwapFailed => "CustomError: SwapFailed",
        }
    }
}

impl From<CustomError> for ProgramError {
    fn from(value: CustomError) -> (r: ProgramError) {
        ProgramError::Custom(value.code())
    }
}

impl vstd::std_specs::convert::FromSpecImpl<CustomError> for ProgramError {
    open spec fn obeys_from_spec() -> bool {
        true
    }

    open spec fn from_spec(v: CustomError) -> ProgramError {
        ProgramError::Custom(v.spec_code())
    }
}

/// The runtime error a market-maker error becomes.
pub open spec fn custom(e: CustomError) -> ProgramError {
    ProgramError::Custom(e.spec_code())
}

/// Converts a market-maker error into the runtime error it is returned as.
pub fn to_program_error(e: CustomError) -> (r: ProgramError)
    ensures
        r == custom(e),
{
    ProgramError::from(e)
}

} // verus!
