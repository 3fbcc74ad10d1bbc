//! The reasons for which an operation is turned down.

use vstd::prelude::*;

verus! {

/// Why an operation was rejected. The first failed check decides; nothing is
/// collected.
#[derive(Clone, Copy, Debug, PartialEq, Eq, Structural)]
pub enum EscrowError {
    /// The operation buffer is empty, carries an unknown tag, or is too short
    /// for the amount it should carry.
    InvalidInstructionData,
    /// Fewer account references were supplied than the operation consumes.
    NotEnoughAccountKeys,
    /// A party that has to authorize the operation did not sign it.
    MissingSignature,
    /// An account is not owned by the program that should manage it.
    WrongProgramOwner,
    /// Account contents do not decode, or a supplied account differs from the
    /// one that the stored record names.
    InvalidAccountData,
    /// Account contents decode to an account that was never initialized.
    UninitializedAccount,
    /// The record account does not hold the minimum balance for its size.
    AccountNotRentExempt,
    /// The record already describes an active trade.
    AccountAlreadyInitialized,
    /// The seeds at hand derive no custody address.
    InvalidSeeds,
    /// The declared amount differs from the custody balance, or a reclaimed
    /// balance would overflow.
    InsufficientFunds,
}

} // verus!
