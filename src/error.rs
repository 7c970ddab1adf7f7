use vstd::prelude::*;

verus! {

/// Why an instruction was rejected.
#[derive(Clone, Copy, Debug, PartialEq, Eq, Structural)]
pub enum EscrowError {
    /// Fewer accounts were supplied than the instruction names.
    NotEnoughAccountKeys,
    /// An account that must sign the call did not.
    MissingRequiredSignature,
    /// The escrow slot to be created already holds data.
    AccountAlreadyInitialized,
    /// The payload or its discriminator cannot be decoded.
    InvalidInstructionData,
    /// An account's data has the wrong length or layout.
    InvalidAccountData,
    /// An account is not owned by the program that must own it.
    InvalidAccountOwner,
    /// The stored maker is not the account that was supplied as maker.
    IncorrectAuthority,
    /// An address does not match its derivation from the seed material.
    InvalidSeeds,
}

} // verus!
