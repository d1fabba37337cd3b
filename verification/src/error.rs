//! The error taxonomy of the escrow core.

use vstd::prelude::*;

verus! {

/// Every way a transition or a decode can fail. Each check in the core
/// returns the first failure immediately; nothing is retried or recovered.
/// The order of the variants is stable, so that the surrounding runtime can
/// map them into its own error-code space reproducibly (see [`EscrowError::code`]).
#[derive(Clone, Copy, Debug, PartialEq, Eq, Structural)]
pub enum EscrowError {
    /// Malformed or unknown instruction bytes.
    InvalidInstruction,
    /// The record's storage account is under-funded at creation.
    NotRentExempt,
    /// The taker-observed balance disagrees with the taker's expectation.
    ExpectedAmountMismatch,
    /// Arithmetic on amounts would overflow; reserved for future
    /// multi-step accounting, no current transition returns it.
    AmountOverflow,
    /// The storage account already holds an initialized record.
    AccountAlreadyInitialized,
    /// A required signer flag is missing on a supplied account.
    MissingRequiredSignature,
    /// An account is owned by the wrong program.
    IncorrectProgramId,
    /// Any cross-account identity mismatch, or unusable account content.
    InvalidAccountData,
}

impl EscrowError {
    /// The stable position of each variant in the taxonomy.
    pub open spec fn spec_code(self) -> u32 {
        match self {
            EscrowError::InvalidInstruction => 0,
            EscrowError::NotRentExempt => 1,
            EscrowError::ExpectedAmountMismatch => 2,
            EscrowError::AmountOverflow => 3,
            EscrowError::AccountAlreadyInitialized => 4,
            EscrowError::MissingRequiredSignature => 5,
            EscrowError::IncorrectProgramId => 6,
            EscrowError::InvalidAccountData => 7,
        }
    }

    /// Expose the taxonomy as a stable, ordered enumeration, so that the
    /// surrounding runtime's mapping into its global error-code space is
    /// reproducible.
    pub fn code(&self) -> (c: u32)
        ensures
            c == self.spec_code(),
    {
        match self {
            EscrowError::InvalidInstruction => 0,
            EscrowError::NotRentExempt => 1,
            EscrowError::ExpectedAmountMismatch => 2,
            EscrowError::AmountOverflow => 3,
            EscrowError::AccountAlreadyInitialized => 4,
            EscrowError::MissingRequiredSignature => 5,
            EscrowError::IncorrectProgramId => 6,
            EscrowError::InvalidAccountData => 7,
        }
    }
}

} // verus!
