//! Error values shared by all programs.
use vstd::prelude::*;

verus! {

/// Error returned by a program's own logic, before it is reported to the runtime.
#[derive(Clone, Copy, Debug, PartialEq, Eq, Structural)]
pub enum ProgramError {
    Custom(u32),
    InvalidArgument,
    InvalidInstructionData,
    InvalidAccountData,
    AccountDataTooSmall,
    IncorrectAuthority,
    AccountAlreadyInitialized,
    UninitializedAccount,
    InvalidAccountOwner,
}

/// Error reported by an instruction to the runtime.
#[derive(Clone, Copy, Debug, PartialEq, Eq, Structural)]
pub enum InstructionError {
    InvalidArgument,
    InvalidInstructionData,
    InvalidAccountData,
    AccountDataTooSmall,
    InsufficientFunds,
    IncorrectAuthority,
    MissingRequiredSignature,
    AccountAlreadyInitialized,
    UninitializedAccount,
    NotEnoughAccountKeys,
    InvalidAccountOwner,
    Immutable,
    AccountBorrowFailed,
    ArithmeticOverflow,
    Custom(u32),
}

/// Result of decoding a value from the front of account data: the decoded value,
/// or `InvalidAccountData`.
pub open spec fn decoded<M>(d: Option<(M, Seq<u8>)>) -> Result<M, ProgramError> {
    match d {
        Some((m, _)) => Ok(m),
        None => Err(ProgramError::InvalidAccountData),
    }
}

/// How the registry-style processors report a program error: a custom code is
/// kept, every other error becomes `InvalidArgument`.
pub open spec fn spec_map_err(e: ProgramError) -> InstructionError {
    match e {
        ProgramError::Custom(code) => InstructionError::Custom(code),
        _ => InstructionError::InvalidArgument,
    }
}

pub fn map_err(e: ProgramError) -> (r: InstructionError)
    ensures
        r == spec_map_err(e),
{
    match e {
        ProgramError::Custom(code) => InstructionError::Custom(code),
        _ => InstructionError::InvalidArgument,
    }
}

} // verus!
