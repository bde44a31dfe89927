use vstd::prelude::*;

verus! {

/// The runtime's error type. Values of it only pass through this library.
#[verifier::external_type_specification]
#[verifier::external_body]
pub struct ExProgramError(pinocchio::error::ProgramError);

/// The errors this program reports. Each unit variant stands for the runtime
/// error of the same name; `Runtime` carries an error that a runtime call
/// returned.
#[derive(Debug, PartialEq, Eq)]
pub enum FundraiserError {
    InvalidInstructionData,
    InvalidAccountData,
    NotEnoughAccountKeys,
    IncorrectAuthority,
    Runtime(pinocchio::error::ProgramError),
}

} // verus!
