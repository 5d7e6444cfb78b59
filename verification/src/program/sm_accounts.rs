//! The account model of the bridge's registration and funding flow: admin and
//! user accounts owned by a wallet and a co-signer, and funding requests that
//! a user addresses to an admin.
use vstd::prelude::*;
use crate::pubkey::Pubkey;
use crate::program::accounts::{ProfileAccount, Wallet};

verus! {

/// Why a registration or funding instruction was refused.
#[derive(Clone, Copy, Debug, PartialEq, Eq, Structural)]
pub enum BridgeError {
    /// The admin is not authorized to approve the request.
    Unauthorized,
    /// An account is already registered for this owner.
    AlreadyRegistered,
    /// The payload is too large.
    PayloadTooLarge,
    /// The funding request has already been processed.
    RequestAlreadyProcessed,
    /// The admin account holds too little to approve the funding request.
    InsufficientFundsForFunding,
    /// The payer holds too little to create the admin account.
    InsufficientFundsForAdmin,
}

impl BridgeError {
    /// The message the program reports for this error.
    pub open spec fn spec_message(self) -> &'static str {
        match self {
            BridgeError::Unauthorized => "Admin is not authorized to approve this request",
            BridgeError::AlreadyRegistered => "PDA already registered for this owner",
            BridgeError::PayloadTooLarge => "Payload too large",
            BridgeError::RequestAlreadyProcessed => "Funding request has already been processed",
            BridgeError::InsufficientFundsForFunding => "Insufficient funds in admin profile to approve funding request",
            BridgeError::InsufficientFundsForAdmin => "Insufficient funds to create admin profile PDA",
        }
    }

    /// The message the program reports for this error.
    pub fn message(&self) -> (s: &'static str)
        ensures
            s == self.spec_message(),
    {
        match self {
            BridgeError::Unauthorized => "Admin is not authorized to approve this request",
            BridgeError::AlreadyRegistered => "PDA already registered for this owner",
            BridgeError::PayloadTooLarge => "Payload too large",
            BridgeError::RequestAlreadyProcessed => "Funding request has already been processed",
            BridgeError::InsufficientFundsForFunding => "Insufficient funds in admin profile to approve funding request",
            BridgeError::InsufficientFundsForAdmin => "Insufficient funds to create admin profile PDA",
        }
    }
}

/// Ownership and state shared by admin and user accounts.
#[derive(Clone, Copy, Debug, PartialEq, Eq, Structural)]
pub struct AccountMeta {
    /// The wallet that owns the account.
    pub owner: Pubkey,
    /// The key the account's address is derived from.
    pub co_signer: Pubkey,
    /// Whether the account is still in service.
    pub active: bool,
}

impl AccountMeta {
    /// Takes the account out of service; owner and co-signer stay.
    pub fn deactivate(&mut self)
        ensures
            final(self).active == false,
            final(self).owner == old(self).owner,
            final(self).co_signer == old(self).co_signer,
    {
        self.active = false;
    }
}

/// The account of a registered admin.
#[derive(Clone, Copy, Debug, PartialEq, Eq, Structural)]
pub struct AdminAccount {
    pub meta: AccountMeta,
}

/// The account of a registered user.
#[derive(Clone, Copy, Debug, PartialEq, Eq, Structural)]
pub struct UserAccount {
    pub meta: AccountMeta,
}

/// A user's request that an admin fund the user's wallet.
#[derive(Clone, Copy, Debug, PartialEq, Eq, Structural)]
pub struct FundingRequest {
    /// The wallet to be funded.
    pub user_wallet: Pubkey,
    /// The admin asked to fund it.
    pub target_admin: Pubkey,
    /// The amount asked for, in lamports.
    pub amount: u64,
    /// The state of the request.
    pub status: u8,
}

/// Accounts of the admin registration: the new admin account (its address
/// derived from the co-signer), the payer, the authority and the co-signer.
pub struct RegisterAdmin {
    pub admin_account: ProfileAccount<AdminAccount>,
    pub payer: Wallet,
    pub authority: Wallet,
    pub co_signer: Wallet,
}

/// Accounts of the user registration.
pub struct RegisterUser {
    pub user_account: ProfileAccount<UserAccount>,
    pub payer: Wallet,
    pub user_wallet: Wallet,
    pub co_signer: Wallet,
}

/// Accounts of an admin's deactivation.
pub struct DeactivateAdmin {
    pub admin_account: ProfileAccount<AdminAccount>,
}

/// Accounts of a user's deactivation.
pub struct DeactivateUser {
    pub user_account: ProfileAccount<UserAccount>,
}

/// Accounts of a funding request.
pub struct RequestFunding {
    pub funding_request: ProfileAccount<FundingRequest>,
    pub payer: Wallet,
    pub user_account: ProfileAccount<UserAccount>,
}

/// Accounts of an admin's approval of a funding request.
pub struct ApproveFunding {
    pub admin_account: ProfileAccount<AdminAccount>,
    pub funding_request: ProfileAccount<FundingRequest>,
    pub user_wallet: Wallet,
    pub admin_authority: Wallet,
}

/// Accounts of a command dispatched by an admin.
pub struct DispatchCommandAdmin {
    pub authority: Wallet,
    pub admin_account: ProfileAccount<AdminAccount>,
}

/// Accounts of a command dispatched by a user.
pub struct DispatchCommandUser {
    pub authority: Wallet,
    pub user_account: ProfileAccount<UserAccount>,
}

} // verus!
