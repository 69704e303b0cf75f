use vstd::prelude::*;

verus! {

/// Every way an operation of this library can fail.
#[derive(Clone, Copy, Debug, PartialEq, Eq, Structural)]
pub enum CoalError {
    /// The epoch has ended; a reset must run before mining resumes.
    NeedsReset,
    /// A solution below the minimum accepted difficulty.
    InvalidDifficulty,
    /// A reward or balance computation left the 64-bit range.
    ArithmeticOverflow,
    /// A claim larger than the proof's balance.
    ClaimTooLarge,
    /// A mint that would push the supply over its cap.
    MaxSupply,
    /// The signer is not the key the record names.
    MissingRequiredSignature,
    /// A record does not hold what the operation requires of it.
    InvalidAccountData,
    /// A proof already exists at the address being opened.
    AccountAlreadyInitialized,
    /// No proof exists at the address.
    AccountNotFound,
    /// A token account holds fewer tokens than asked for.
    InsufficientFunds,
}

} // verus!
