//! The accounts an instruction of the bridge program operates on: each
//! instruction receives the signer's wallet and the profile accounts it reads
//! or changes, with their lamport balances.
use vstd::prelude::*;
use crate::pubkey::Pubkey;
use crate::program::state::{AdminProfile, PriceEntry, UserProfile};

verus! {

/// A system-owned account: its address and lamport balance.
#[derive(Clone, Copy, Debug, PartialEq, Eq, Structural)]
pub struct Wallet {
    pub key: Pubkey,
    pub lamports: u64,
}

/// A program-owned account: its address, lamport balance, the length of its
/// data in bytes, and the record it holds.
#[derive(Clone, Debug, PartialEq, Eq)]
pub struct ProfileAccount<T> {
    pub key: Pubkey,
    pub lamports: u64,
    pub data_len: usize,
    pub data: T,
}

/// Accounts of `admin_register_profile`.
pub struct AdminRegisterProfile {
    pub authority: Wallet,
    pub admin_profile: ProfileAccount<AdminProfile>,
}

/// Accounts of `admin_update_prices`.
pub struct AdminUpdatePrices {
    pub authority: Wallet,
    pub admin_profile: ProfileAccount<AdminProfile>,
}

/// Arguments of `admin_update_prices`.
pub struct UpdatePricesArgs {
    pub new_prices: Vec<PriceEntry>,
}

/// Accounts of `admin_withdraw`.
pub struct AdminWithdraw {
    pub authority: Wallet,
    pub admin_profile: ProfileAccount<AdminProfile>,
    pub destination: Wallet,
}

/// Accounts of `admin_update_comm_key`.
pub struct AdminUpdateCommKey {
    pub authority: Wallet,
    pub admin_profile: ProfileAccount<AdminProfile>,
}

/// Accounts of `admin_close_profile`.
pub struct AdminCloseProfile {
    pub authority: Wallet,
    pub admin_profile: ProfileAccount<AdminProfile>,
}

/// Accounts of `admin_dispatch_command`.
pub struct AdminDispatchCommand {
    pub admin_authority: Wallet,
    pub admin_profile: ProfileAccount<AdminProfile>,
    pub user_profile: ProfileAccount<UserProfile>,
}

/// Accounts of `user_create_profile`.
pub struct UserCreateProfile {
    pub authority: Wallet,
    pub admin_profile: ProfileAccount<AdminProfile>,
    pub user_profile: ProfileAccount<UserProfile>,
}

/// Accounts of `user_deposit`.
pub struct UserDeposit {
    pub authority: Wallet,
    pub admin_profile: ProfileAccount<AdminProfile>,
    pub user_profile: ProfileAccount<UserProfile>,
}

/// Accounts of `user_withdraw`.
pub struct UserWithdraw {
    pub authority: Wallet,
    pub admin_profile: ProfileAccount<AdminProfile>,
    pub user_profile: ProfileAccount<UserProfile>,
    pub destination: Wallet,
}

/// Accounts of `user_update_comm_key`.
pub struct UserUpdateCommKey {
    pub authority: Wallet,
    pub admin_profile: ProfileAccount<AdminProfile>,
    pub user_profile: ProfileAccount<UserProfile>,
}

/// Accounts of `user_close_profile`.
pub struct UserCloseProfile {
    pub authority: Wallet,
    pub admin_profile: ProfileAccount<AdminProfile>,
    pub user_profile: ProfileAccount<UserProfile>,
}

/// Accounts of `user_dispatch_command`.
pub struct UserDispatchCommand {
    pub authority: Wallet,
    pub user_profile: ProfileAccount<UserProfile>,
    pub admin_profile: ProfileAccount<AdminProfile>,
}

/// Accounts of `log_action`.
pub struct LogAction {
    pub authority: Wallet,
    pub user_profile: ProfileAccount<UserProfile>,
    pub admin_profile: ProfileAccount<AdminProfile>,
}

} // verus!
