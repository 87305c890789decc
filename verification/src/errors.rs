//! Error taxonomy of the escrow engine.
//!
//! `EscrowError` lists the program's own rejection reasons; `ProgramError`
//! mirrors the runtime-level error channel through which handlers report,
//! with the program's own reasons carried under `Custom`.

use vstd::prelude::*;

verus! {

/// The program's own rejection reasons.
#[derive(Clone, Copy, Debug, PartialEq, Eq, Structural)]
pub enum EscrowError {
    /// An account's balance is below the rent-exempt threshold.
    NotEnoughRentExempt,
    /// An account that must authorize the transaction did not sign it.
    NotSigner,
    /// An account is owned by the wrong program.
    InvalidOwner,
    /// An account's data has the wrong size, shape, or discriminator.
    InvalidAccountData,
    /// A supplied address does not match its required derivation.
    InvalidAddress,
}

impl EscrowError {
    /// The numeric code under which the runtime reports this reason.
    pub fn code(&self) -> (r: u32)
        ensures
            r == self.code_spec(),
    {
        match self {
            EscrowError::NotEnoughRentExempt => 0,
            EscrowError::NotSigner => 1,
            EscrowError::InvalidOwner => 2,
            EscrowError::InvalidAccountData => 3,
            EscrowError::InvalidAddress => 4,
        }
    }

    pub open spec fn code_spec(self) -> u32 {
        match self {
            EscrowError::NotEnoughRentExempt => 0,
            EscrowError::NotSigner => 1,
            EscrowError::InvalidOwner => 2,
            EscrowError::InvalidAccountData => 3,
            EscrowError::InvalidAddress => 4,
        }
    }
}

/// The error channel of a handler invocation, as the runtime distinguishes it.
#[derive(Clone, Copy, Debug, PartialEq, Eq, Structural)]
pub enum ProgramError {
    /// A program-specific rejection.
    Custom(EscrowError),
    /// A required transaction-level signature is missing.
    MissingRequiredSignature,
    /// The instruction payload is malformed or semantically invalid.
    InvalidInstructionData,
    /// A stored record does not have the size the runtime-level check asks.
    InvalidAccountData,
    /// The account list is shorter or longer than the opcode requires.
    NotEnoughAccountKeys,
    /// A supplied account does not match the authority derivation.
    InvalidAccountOwner,
}

} // verus!
