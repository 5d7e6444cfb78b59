use w3b2::connector::pda::{admin_pda, user_pda};
use w3b2::program::accounts::{
    AdminRegisterProfile, UserCreateProfile, AdminDispatchCommand, AdminUpdateCommKey, AdminUpdatePrices, AdminWithdraw, LogAction,
    ProfileAccount, UserDeposit, UserDispatchCommand, UserWithdraw, Wallet,
};
use w3b2::program::errors::{BridgeError, InstructionError};
use w3b2::program::instructions::{
    admin_register_profile, user_create_profile, admin_dispatch_command, admin_update_comm_key, admin_update_prices, admin_withdraw, log_action,
    user_deposit, user_dispatch_command, user_withdraw, MAX_PAYLOAD_SIZE,
};
use w3b2::program::state::{find_price_index, lookup_price, normalize_prices, AdminProfile, PriceEntry, UserProfile};
use w3b2::program::sm_accounts::{AccountMeta, BridgeError as RegistrationError};
use w3b2::pubkey::Pubkey;

fn key(n: u64) -> Pubkey {
    Pubkey { k0: n, k1: 0, k2: 0, k3: n }
}

const ADMIN: u64 = 1;
const USER: u64 = 3;
const RENT: u64 = 1_000;

/// The address of the admin profile of `ADMIN`.
fn admin_key() -> Pubkey {
    admin_pda(&key(ADMIN)).unwrap()
}

/// The address of the user profile of `USER` for the admin profile of `ADMIN`.
fn user_key() -> Pubkey {
    user_pda(&key(USER), &admin_key()).unwrap()
}

fn admin_account(balance: u64, lamports: u64, prices: Vec<PriceEntry>) -> ProfileAccount<AdminProfile> {
    ProfileAccount {
        key: admin_key(),
        lamports,
        data_len: 8 + 96 + 16 * 10,
        data: AdminProfile { authority: key(ADMIN), communication_pubkey: key(9), prices, balance },
    }
}

fn user_account(deposit: u64, lamports: u64, admin: Pubkey) -> ProfileAccount<UserProfile> {
    ProfileAccount {
        key: user_key(),
        lamports,
        data_len: 8 + 104,
        data: UserProfile {
            authority: key(USER),
            communication_pubkey: key(8),
            admin_profile_on_creation: admin,
            deposit_balance: deposit,
        },
    }
}

fn wallet(n: u64, lamports: u64) -> Wallet {
    Wallet { key: key(n), lamports }
}

#[test]
fn admin_checks() {
    let mut ctx = AdminUpdateCommKey { authority: wallet(USER, 10), admin_profile: admin_account(0, RENT, vec![]) };
    assert_eq!(admin_update_comm_key(&mut ctx, key(7), 0), Err(InstructionError::ConstraintSeeds));
    assert_eq!(ctx.admin_profile.data.communication_pubkey, key(9));
    let mut foreign = admin_account(0, RENT, vec![]);
    foreign.key = admin_pda(&key(USER)).unwrap();
    let mut ctx = AdminUpdateCommKey { authority: wallet(USER, 10), admin_profile: foreign };
    assert_eq!(
        admin_update_comm_key(&mut ctx, key(7), 0),
        Err(InstructionError::Bridge(BridgeError::SignerUnauthorized))
    );
    assert_eq!(ctx.admin_profile.data.communication_pubkey, key(9));

    let mut ctx = AdminWithdraw {
        authority: wallet(ADMIN, 0),
        admin_profile: admin_account(100, RENT + 100, vec![]),
        destination: wallet(20, 0),
    };
    assert_eq!(admin_withdraw(&mut ctx, 101, RENT, 0), Err(InstructionError::Bridge(BridgeError::InsufficientAdminBalance)));
    let mut ctx = AdminWithdraw {
        authority: wallet(ADMIN, 0),
        admin_profile: admin_account(100, RENT + 50, vec![]),
        destination: wallet(20, 0),
    };
    assert_eq!(admin_withdraw(&mut ctx, 100, RENT, 0), Err(InstructionError::Bridge(BridgeError::RentExemptViolation)));
    assert_eq!(ctx.destination.lamports, 0);

    let user = user_account(0, RENT, key(77));
    let ctx = AdminDispatchCommand { admin_authority: wallet(ADMIN, 0), admin_profile: admin_account(0, RENT, vec![]), user_profile: user };
    assert_eq!(admin_dispatch_command(&ctx, 1, vec![], 0), Err(InstructionError::Bridge(BridgeError::AdminMismatch)));
    let user = user_account(0, RENT, admin_key());
    let ctx = AdminDispatchCommand { admin_authority: wallet(ADMIN, 0), admin_profile: admin_account(0, RENT, vec![]), user_profile: user };
    assert_eq!(admin_dispatch_command(&ctx, 1, vec![0; MAX_PAYLOAD_SIZE + 1], 0), Err(InstructionError::Bridge(BridgeError::PayloadTooLarge)));
    assert!(admin_dispatch_command(&ctx, 1, vec![0; MAX_PAYLOAD_SIZE], 0).is_ok());
}

#[test]
fn price_list_is_kept_sorted_without_duplicates() {
    let mut ctx = AdminUpdatePrices { authority: wallet(ADMIN, 0), admin_profile: admin_account(0, RENT, vec![]) };
    let prices = vec![PriceEntry::new(5, 50), PriceEntry::new(1, 10), PriceEntry::new(5, 99), PriceEntry::new(3, 30)];
    admin_update_prices(&mut ctx, prices.clone(), RENT, 0).unwrap();
    assert_eq!(ctx.admin_profile.data_len, 8 + 96 + 16 * 4);
    let kept = ctx.admin_profile.data.prices.clone();
    let ids: Vec<u16> = kept.iter().map(|p| p.command_id).collect();
    assert_eq!(ids, vec![1, 3, 5]);
    assert_eq!(kept[0], PriceEntry::new(1, 10));
    assert_eq!(kept[1], PriceEntry::new(3, 30));
    assert!(kept[2] == PriceEntry::new(5, 50) || kept[2] == PriceEntry::new(5, 99));
    assert_eq!(normalize_prices(&prices), kept);
    let sorted = &kept;
    assert_eq!(find_price_index(sorted, 3), Some(1));
    assert_eq!(find_price_index(sorted, 4), None);
    assert_eq!(lookup_price(sorted, 1), 10);
    assert_eq!(lookup_price(sorted, 2), 0);
    let mut ctx = AdminUpdatePrices { authority: wallet(USER, 0), admin_profile: admin_account(0, RENT, vec![]) };
    assert_eq!(admin_update_prices(&mut ctx, prices.clone(), RENT, 0).unwrap_err(), InstructionError::ConstraintSeeds);
    let mut foreign = admin_account(0, RENT, vec![]);
    foreign.key = admin_pda(&key(USER)).unwrap();
    let mut ctx = AdminUpdatePrices { authority: wallet(USER, 0), admin_profile: foreign };
    assert_eq!(
        admin_update_prices(&mut ctx, prices, RENT, 0).unwrap_err(),
        InstructionError::Bridge(BridgeError::SignerUnauthorized)
    );
}

#[test]
fn user_checks() {
    let mut ctx = UserDeposit { authority: wallet(99, 1_000), admin_profile: admin_account(0, RENT, vec![]), user_profile: user_account(0, RENT, admin_key()) };
    assert_eq!(user_deposit(&mut ctx, 10, 0), Err(InstructionError::ConstraintSeeds));
    let mut foreign = user_account(0, RENT, admin_key());
    foreign.key = user_pda(&key(99), &admin_key()).unwrap();
    let mut ctx = UserDeposit { authority: wallet(99, 1_000), admin_profile: admin_account(0, RENT, vec![]), user_profile: foreign };
    assert_eq!(user_deposit(&mut ctx, 10, 0), Err(InstructionError::Bridge(BridgeError::SignerUnauthorized)));
    let mut ctx = UserDeposit { authority: wallet(USER, 1_000), admin_profile: admin_account(0, RENT, vec![]), user_profile: user_account(0, RENT, key(5)) };
    assert_eq!(user_deposit(&mut ctx, 10, 0), Err(InstructionError::Bridge(BridgeError::AdminMismatch)));
    let mut ctx = UserDeposit { authority: wallet(USER, 5), admin_profile: admin_account(0, RENT, vec![]), user_profile: user_account(0, RENT, admin_key()) };
    assert_eq!(user_deposit(&mut ctx, 10, 0), Err(InstructionError::InsufficientFunds));

    let mut ctx = UserWithdraw {
        authority: wallet(USER, 0),
        admin_profile: admin_account(0, RENT, vec![]),
        user_profile: user_account(10, RENT + 10, admin_key()),
        destination: wallet(30, 0),
    };
    assert_eq!(user_withdraw(&mut ctx, 11, RENT, 0), Err(InstructionError::Bridge(BridgeError::InsufficientDepositBalance)));
    let mut ctx = UserWithdraw {
        authority: wallet(USER, 0),
        admin_profile: admin_account(0, RENT, vec![]),
        user_profile: user_account(10, RENT + 5, admin_key()),
        destination: wallet(30, 0),
    };
    assert_eq!(user_withdraw(&mut ctx, 10, RENT, 0), Err(InstructionError::Bridge(BridgeError::RentExemptViolation)));

    let prices = vec![PriceEntry::new(1, 100)];
    let mut ctx = UserDispatchCommand {
        authority: wallet(USER, 0),
        user_profile: user_account(50, RENT + 50, admin_key()),
        admin_profile: admin_account(0, RENT, prices.clone()),
    };
    assert_eq!(user_dispatch_command(&mut ctx, 1, vec![], RENT, 0).unwrap_err(), InstructionError::Bridge(BridgeError::InsufficientDepositBalance));
    assert_eq!(user_dispatch_command(&mut ctx, 1, vec![0; MAX_PAYLOAD_SIZE + 1], RENT, 0).unwrap_err(), InstructionError::Bridge(BridgeError::PayloadTooLarge));
    let free = user_dispatch_command(&mut ctx, 2, vec![7], RENT, 0).unwrap();
    assert_eq!(free.price_paid, 0);
    assert_eq!(free.target_admin_authority, key(ADMIN));
    assert_eq!(ctx.user_profile.data.deposit_balance, 50);
    let mut ctx = UserDispatchCommand {
        authority: wallet(USER, 0),
        user_profile: user_account(100, RENT + 50, admin_key()),
        admin_profile: admin_account(0, RENT, prices),
    };
    assert_eq!(user_dispatch_command(&mut ctx, 1, vec![], RENT, 0).unwrap_err(), InstructionError::Bridge(BridgeError::RentExemptViolation));
}

#[test]
fn log_action_checks() {
    let ctx = LogAction { authority: wallet(42, 0), user_profile: user_account(0, RENT, admin_key()), admin_profile: admin_account(0, RENT, vec![]) };
    assert_eq!(log_action(&ctx, 1, 2, 0).unwrap_err(), InstructionError::Bridge(BridgeError::SignerUnauthorized));
    let ctx = LogAction { authority: wallet(USER, 0), user_profile: user_account(0, RENT, key(5)), admin_profile: admin_account(0, RENT, vec![]) };
    assert_eq!(log_action(&ctx, 1, 2, 0).unwrap_err(), InstructionError::Bridge(BridgeError::AdminMismatch));
}

#[test]
fn errors_report_their_messages() {
    assert_eq!(BridgeError::CommandNotFound.message(), "Command Not Found: The requested command_id does not exist in the admin's price list.");
    assert_eq!(RegistrationError::AlreadyRegistered.message(), "PDA already registered for this owner");
}

#[test]
fn deactivation_keeps_ownership() {
    let mut meta = AccountMeta { owner: key(1), co_signer: key(2), active: true };
    meta.deactivate();
    assert!(!meta.active);
    assert_eq!(meta.owner, key(1));
    assert_eq!(meta.co_signer, key(2));
}

#[test]
fn profile_resizing_moves_rent() {
    // Growing past the rent the account holds: the authority tops it up.
    let mut ctx = AdminUpdatePrices { authority: wallet(ADMIN, 500), admin_profile: admin_account(0, RENT, vec![]) };
    let many: Vec<PriceEntry> = (1..=12).map(|i| PriceEntry::new(i, 1)).collect();
    admin_update_prices(&mut ctx, many.clone(), RENT + 300, 0).unwrap();
    assert_eq!(ctx.admin_profile.data_len, 8 + 96 + 16 * 12);
    assert_eq!(ctx.admin_profile.lamports, RENT + 300);
    assert_eq!(ctx.authority.lamports, 200);
    // Too little in the wallet for the top-up.
    let mut ctx = AdminUpdatePrices { authority: wallet(ADMIN, 100), admin_profile: admin_account(0, RENT, vec![]) };
    assert_eq!(admin_update_prices(&mut ctx, many, RENT + 300, 0).unwrap_err(), InstructionError::InsufficientFunds);
    assert_eq!(ctx.authority.lamports, 100);
    // Shrinking gives back everything above the new minimum.
    let mut ctx = AdminUpdatePrices { authority: wallet(ADMIN, 0), admin_profile: admin_account(0, RENT, vec![]) };
    admin_update_prices(&mut ctx, vec![PriceEntry::new(1, 5)], RENT - 400, 0).unwrap();
    assert_eq!(ctx.admin_profile.data_len, 8 + 96 + 16);
    assert_eq!(ctx.admin_profile.lamports, RENT - 400);
    assert_eq!(ctx.authority.lamports, 400);
    // Growing by more than the runtime permits at once.
    let mut ctx = AdminUpdatePrices { authority: wallet(ADMIN, u64::MAX / 2), admin_profile: admin_account(0, RENT, vec![]) };
    let huge: Vec<PriceEntry> = (0..700u16).map(|i| PriceEntry::new(i, 1)).collect();
    assert_eq!(admin_update_prices(&mut ctx, huge, RENT, 0).unwrap_err(), InstructionError::ReallocExceedsLimit);
}

#[test]
fn withdrawal_from_a_profile_at_another_address_is_refused() {
    // The signer is the profile's authority, but the profile is not at the
    // address derived from `["admin", signer]`.
    let mut misplaced = admin_account(500, RENT + 500, vec![]);
    misplaced.key = key(2);
    let mut ctx = AdminWithdraw { authority: wallet(ADMIN, 0), admin_profile: misplaced, destination: wallet(20, 0) };
    assert_eq!(admin_withdraw(&mut ctx, 100, RENT, 0), Err(InstructionError::ConstraintSeeds));
    assert_eq!(ctx.admin_profile.data.balance, 500);
    assert_eq!(ctx.admin_profile.lamports, RENT + 500);
    assert_eq!(ctx.destination.lamports, 0);
}

#[test]
fn registering_over_an_existing_profile_is_refused() {
    let existing = admin_account(700, RENT + 700, vec![PriceEntry::new(1, 5)]);
    let mut ctx = AdminRegisterProfile { authority: wallet(ADMIN, 10_000), admin_profile: existing };
    assert_eq!(admin_register_profile(&mut ctx, key(6), RENT, 0), Err(InstructionError::AccountAlreadyInUse));
    assert_eq!(ctx.admin_profile.data.balance, 700);
    assert_eq!(ctx.admin_profile.data.communication_pubkey, key(9));
    assert_eq!(ctx.authority.lamports, 10_000);
    // With lamports in the account the transfer comes first.
    let existing = admin_account(0, RENT - 10, vec![]);
    let mut ctx = AdminRegisterProfile { authority: wallet(ADMIN, 5), admin_profile: existing };
    assert_eq!(admin_register_profile(&mut ctx, key(6), RENT, 0), Err(InstructionError::InsufficientFunds));
    // A profile at another address.
    let mut misplaced = admin_account(0, 0, vec![]);
    misplaced.key = key(2);
    misplaced.data_len = 0;
    let mut ctx = AdminRegisterProfile { authority: wallet(ADMIN, 10_000), admin_profile: misplaced };
    assert_eq!(admin_register_profile(&mut ctx, key(6), RENT, 0), Err(InstructionError::ConstraintSeeds));
}

#[test]
fn registering_tops_up_an_address_that_holds_lamports() {
    let mut fresh = admin_account(0, 300, vec![]);
    fresh.data_len = 0;
    let mut ctx = AdminRegisterProfile { authority: wallet(ADMIN, 10_000), admin_profile: fresh };
    let ev = admin_register_profile(&mut ctx, key(6), RENT, 0).unwrap();
    assert_eq!(ev.authority, key(ADMIN));
    assert_eq!(ctx.admin_profile.lamports, RENT);
    assert_eq!(ctx.authority.lamports, 10_000 - (RENT - 300));
    assert_eq!(ctx.admin_profile.data_len, 8 + 96 + 16 * 10);
    assert_eq!(ctx.admin_profile.data.authority, key(ADMIN));
}

#[test]
fn creating_a_user_profile_checks_both_addresses() {
    let empty = || {
        let mut u = user_account(0, 0, key(0));
        u.data_len = 0;
        u
    };
    let mut ctx = UserCreateProfile { authority: wallet(USER, 10_000), admin_profile: admin_account(0, RENT, vec![]), user_profile: user_account(5, RENT, admin_key()) };
    assert_eq!(user_create_profile(&mut ctx, admin_key(), key(6), RENT, 0), Err(InstructionError::AccountAlreadyInUse));
    assert_eq!(ctx.user_profile.data.deposit_balance, 5);
    let mut ctx = UserCreateProfile { authority: wallet(USER, 10_000), admin_profile: admin_account(0, RENT, vec![]), user_profile: empty() };
    ctx.user_profile.key = key(4);
    assert_eq!(user_create_profile(&mut ctx, admin_key(), key(6), RENT, 0), Err(InstructionError::ConstraintSeeds));
    // The admin profile is not at the address derived from its authority.
    let mut stray = admin_account(0, RENT, vec![]);
    stray.data.authority = key(77);
    let mut ctx = UserCreateProfile { authority: wallet(USER, 10_000), admin_profile: stray, user_profile: empty() };
    ctx.user_profile.key = user_key();
    assert_eq!(user_create_profile(&mut ctx, admin_key(), key(6), RENT, 0), Err(InstructionError::ConstraintSeeds));
    assert_eq!(ctx.authority.lamports, 10_000);
    let mut ctx = UserCreateProfile { authority: wallet(USER, 10_000), admin_profile: admin_account(0, RENT, vec![]), user_profile: empty() };
    ctx.user_profile.key = user_key();
    assert_eq!(
        user_create_profile(&mut ctx, key(5), key(6), RENT, 0),
        Err(InstructionError::Bridge(BridgeError::AdminMismatch))
    );
    let ev = user_create_profile(&mut ctx, admin_key(), key(6), RENT, 0).unwrap();
    assert_eq!(ev.target_admin, admin_key());
    assert_eq!(ctx.user_profile.lamports, RENT);
    assert_eq!(ctx.authority.lamports, 10_000 - RENT);
}

#[test]
fn logging_checks_the_admin_address() {
    let mut stray = admin_account(0, RENT, vec![]);
    stray.data.authority = key(77);
    let ctx = LogAction { authority: wallet(USER, 0), user_profile: user_account(0, RENT, admin_key()), admin_profile: stray };
    assert_eq!(log_action(&ctx, 1, 2, 0).unwrap_err(), InstructionError::ConstraintSeeds);
}
