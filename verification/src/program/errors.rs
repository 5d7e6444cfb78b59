//! Errors returned by the bridge program's instructions.
use vstd::prelude::*;

verus! {

/// Why an instruction of the bridge program was refused.
#[derive(Clone, Copy, Debug, PartialEq, Eq, Structural)]
pub enum BridgeError {
    /// The transaction signer is not the authority of the profile.
    SignerUnauthorized,
    /// The user profile is not associated with the given admin profile.
    AdminMismatch,
    /// The user's deposit does not cover the command's price or the withdrawal.
    InsufficientDepositBalance,
    /// The admin's internal balance does not cover the withdrawal.
    InsufficientAdminBalance,
    /// The transfer would leave the profile below its rent-exempt minimum.
    RentExemptViolation,
    /// The command id is not in the admin's price list.
    CommandNotFound,
    /// The dispatched payload is longer than the maximum payload size.
    PayloadTooLarge,
}

impl BridgeError {
    /// The message the program reports for this error.
    pub open spec fn spec_message(self) -> &'static str {
        match self {
            BridgeError::SignerUnauthorized => "Signer is not the authorized authority for this profile.",
            BridgeError::AdminMismatch => "Admin Mismatch: The provided UserProfile is not associated with the provided AdminProfile.",
            BridgeError::InsufficientDepositBalance => "Insufficient Deposit Balance: The user's deposit is not enough to pay for this command.",
            BridgeError::InsufficientAdminBalance => "Insufficient Admin Balance: The admin's internal balance is not enough to cover the withdrawal amount.",
            BridgeError::RentExemptViolation => "Rent-Exempt Violation: This transaction would leave the PDA with a balance below the rent-exempt minimum.",
            BridgeError::CommandNotFound => "Command Not Found: The requested command_id does not exist in the admin's price list.",
            BridgeError::PayloadTooLarge => "Payload Too Large: The provided payload exceeds the maximum allowed size.",
        }
    }

    /// The message the program reports for this error.
    pub fn message(&self) -> (s: &'static str)
        ensures
            s == self.spec_message(),
    {
        match self {
            BridgeError::SignerUnauthorized => "Signer is not the authorized authority for this profile.",
            BridgeError::AdminMismatch => "Admin Mismatch: The provided UserProfile is not associated with the provided AdminProfile.",
            BridgeError::InsufficientDepositBalance => "Insufficient Deposit Balance: The user's deposit is not enough to pay for this command.",
            BridgeError::InsufficientAdminBalance => "Insufficient Admin Balance: The admin's internal balance is not enough to cover the withdrawal amount.",
            BridgeError::RentExemptViolation => "Rent-Exempt Violation: This transaction would leave the PDA with a balance below the rent-exempt minimum.",
            BridgeError::CommandNotFound => "Command Not Found: The requested command_id does not exist in the admin's price list.",
            BridgeError::PayloadTooLarge => "Payload Too Large: The provided payload exceeds the maximum allowed size.",
        }
    }
}

/// Why an instruction was refused: a rule of the program, a profile account
/// that is not at the address its seeds derive, a profile to be created at an
/// address that already holds one or at the paying wallet's own address, a
/// transfer the signer's wallet holds too little for, or a resize that grows
/// the account by more than the runtime permits in one instruction.
#[derive(Clone, Copy, Debug, PartialEq, Eq, Structural)]
pub enum InstructionError {
    Bridge(BridgeError),
    ConstraintSeeds,
    AccountAlreadyInUse,
    TryingToInitPayerAsProgramAccount,
    InsufficientFunds,
    ReallocExceedsLimit,
}

} // verus!
