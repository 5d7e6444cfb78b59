//! The bridge program's instruction scenarios, run on a small in-memory
//! ledger that plays the runtime's part: it charges the transaction fee,
//! funds new profile accounts with their rent-exempt minimum, resizes the
//! admin profile when its price list changes, and hands each instruction its
//! accounts.
use std::collections::HashMap;
use w3b2::connector::pda::{admin_pda, user_pda};
use w3b2::program::accounts::{
    AdminCloseProfile, AdminDispatchCommand, AdminRegisterProfile, AdminUpdateCommKey,
    AdminUpdatePrices, AdminWithdraw, LogAction, ProfileAccount, UserCloseProfile,
    UserCreateProfile, UserDeposit, UserDispatchCommand, UserUpdateCommKey, UserWithdraw, Wallet,
};
use w3b2::program::instructions::{
    admin_close_profile, admin_dispatch_command, admin_register_profile, admin_update_comm_key,
    admin_update_prices, admin_withdraw, log_action, user_close_profile, user_create_profile,
    user_deposit, user_dispatch_command, user_update_comm_key, user_withdraw,
};
use w3b2::program::state::{AdminProfile, PriceEntry, UserProfile};
use w3b2::pubkey::Pubkey;

const LAMPORTS_PER_SOL: u64 = 1_000_000_000;
const FEE: u64 = 5000;
/// The in-memory size of the admin profile record (two keys, a list, a u64).
const ADMIN_PROFILE_SIZE: usize = 96;
/// The in-memory size of the user profile record (three keys and a u64).
const USER_PROFILE_SIZE: usize = 104;
/// The room one price entry takes.
const PRICE_SLOT: usize = 16;
/// The number of price entries a new admin profile has room for.
const DEFAULT_API_SIZE: usize = 10;
const TS: i64 = 1_700_000_000;

/// The default rent: 3480 lamports per byte-year, two years, 128 bytes of
/// account overhead.
fn rent_minimum(space: usize) -> u64 {
    (128 + space as u64) * 3480 * 2
}

fn admin_space(n_prices: usize) -> usize {
    8 + ADMIN_PROFILE_SIZE + n_prices * PRICE_SLOT
}

fn user_space() -> usize {
    8 + USER_PROFILE_SIZE
}

struct Ledger {
    next_key: u64,
    wallets: HashMap<Pubkey, u64>,
    admins: HashMap<Pubkey, (u64, usize, AdminProfile)>,
    users: HashMap<Pubkey, (u64, UserProfile)>,
    user_sizes: HashMap<Pubkey, usize>,
}

impl Ledger {
    fn new() -> Self {
        Ledger { next_key: 1, wallets: HashMap::new(), admins: HashMap::new(), users: HashMap::new(), user_sizes: HashMap::new() }
    }

    fn create_keypair(&mut self) -> Pubkey {
        self.next_key += 1;
        Pubkey { k0: self.next_key, k1: 0x5eed, k2: 0xfeed, k3: self.next_key * 7 }
    }

    fn create_funded_keypair(&mut self, lamports: u64) -> Pubkey {
        let k = self.create_keypair();
        self.wallets.insert(k, lamports);
        k
    }

    fn balance(&self, k: &Pubkey) -> u64 {
        if let Some(l) = self.wallets.get(k) {
            return *l;
        }
        if let Some((l, _, _)) = self.admins.get(k) {
            return *l;
        }
        if let Some((l, _)) = self.users.get(k) {
            return *l;
        }
        0
    }

    fn wallet(&mut self, k: Pubkey) -> Wallet {
        Wallet { key: k, lamports: *self.wallets.get(&k).unwrap_or(&0) }
    }

    fn store_wallet(&mut self, w: Wallet) {
        self.wallets.insert(w.key, w.lamports);
    }

    fn pay_fee(&mut self, payer: Pubkey) {
        *self.wallets.get_mut(&payer).unwrap() -= FEE;
    }

    fn admin_account(&self, pda: Pubkey) -> ProfileAccount<AdminProfile> {
        let (lamports, data_len, data) = self.admins.get(&pda).unwrap().clone();
        ProfileAccount { key: pda, lamports, data_len, data }
    }

    fn store_admin(&mut self, a: ProfileAccount<AdminProfile>) {
        self.admins.insert(a.key, (a.lamports, a.data_len, a.data));
    }

    fn user_account(&self, pda: Pubkey) -> ProfileAccount<UserProfile> {
        let (lamports, data) = *self.users.get(&pda).unwrap();
        ProfileAccount { key: pda, lamports, data_len: self.user_sizes[&pda], data }
    }

    fn store_user(&mut self, u: ProfileAccount<UserProfile>) {
        self.user_sizes.insert(u.key, u.data_len);
        self.users.insert(u.key, (u.lamports, u.data));
    }

    // --- admin helpers ---

    fn admin_create_profile(&mut self, authority: Pubkey, comm: Pubkey) -> Pubkey {
        let pda = admin_pda(&authority).unwrap();
        self.pay_fee(authority);
        let empty = AdminProfile {
            authority: Pubkey::zero(),
            communication_pubkey: Pubkey::zero(),
            prices: Vec::new(),
            balance: 0,
        };
        let mut ctx = AdminRegisterProfile {
            authority: self.wallet(authority),
            admin_profile: ProfileAccount { key: pda, lamports: 0, data_len: 0, data: empty },
        };
        admin_register_profile(&mut ctx, comm, rent_minimum(admin_space(DEFAULT_API_SIZE)), TS).unwrap();
        self.store_wallet(ctx.authority);
        self.store_admin(ctx.admin_profile);
        pda
    }

    fn admin_update_comm_key(&mut self, authority: Pubkey, new_key: Pubkey) {
        let pda = admin_pda(&authority).unwrap();
        self.pay_fee(authority);
        let mut ctx = AdminUpdateCommKey { authority: self.wallet(authority), admin_profile: self.admin_account(pda) };
        admin_update_comm_key(&mut ctx, new_key, TS).unwrap();
        self.store_wallet(ctx.authority);
        self.store_admin(ctx.admin_profile);
    }

    fn admin_close_profile(&mut self, authority: Pubkey) {
        let pda = admin_pda(&authority).unwrap();
        self.pay_fee(authority);
        let mut ctx = AdminCloseProfile { authority: self.wallet(authority), admin_profile: self.admin_account(pda) };
        admin_close_profile(&mut ctx, TS).unwrap();
        self.store_wallet(ctx.authority);
        self.admins.remove(&pda);
    }

    fn admin_update_prices(&mut self, authority: Pubkey, prices: Vec<PriceEntry>) {
        let pda = admin_pda(&authority).unwrap();
        self.pay_fee(authority);
        let n = prices.len();
        let mut ctx = AdminUpdatePrices { authority: self.wallet(authority), admin_profile: self.admin_account(pda) };
        admin_update_prices(&mut ctx, prices, rent_minimum(admin_space(n)), TS).unwrap();
        self.store_wallet(ctx.authority);
        self.store_admin(ctx.admin_profile);
    }

    fn admin_dispatch_command(&mut self, authority: Pubkey, user_pda: Pubkey, command_id: u64, payload: Vec<u8>) {
        let pda = admin_pda(&authority).unwrap();
        self.pay_fee(authority);
        let ctx = AdminDispatchCommand {
            admin_authority: self.wallet(authority),
            admin_profile: self.admin_account(pda),
            user_profile: self.user_account(user_pda),
        };
        admin_dispatch_command(&ctx, command_id, payload, TS).unwrap();
    }

    fn admin_withdraw(&mut self, authority: Pubkey, destination: Pubkey, amount: u64) {
        let pda = admin_pda(&authority).unwrap();
        self.pay_fee(authority);
        let size = self.admins.get(&pda).unwrap().1;
        let mut ctx = AdminWithdraw {
            authority: self.wallet(authority),
            admin_profile: self.admin_account(pda),
            destination: self.wallet(destination),
        };
        admin_withdraw(&mut ctx, amount, rent_minimum(size), TS).unwrap();
        self.store_wallet(ctx.authority);
        self.store_wallet(ctx.destination);
        self.store_admin(ctx.admin_profile);
    }

    // --- user helpers ---

    fn user_create_profile(&mut self, authority: Pubkey, comm: Pubkey, admin: Pubkey) -> Pubkey {
        let pda = user_pda(&authority, &admin).unwrap();
        self.pay_fee(authority);
        let rent = rent_minimum(user_space());
        let empty = UserProfile {
            authority: Pubkey::zero(),
            communication_pubkey: Pubkey::zero(),
            admin_profile_on_creation: Pubkey::zero(),
            deposit_balance: 0,
        };
        let mut ctx = UserCreateProfile {
            authority: self.wallet(authority),
            admin_profile: self.admin_account(admin),
            user_profile: ProfileAccount { key: pda, lamports: 0, data_len: 0, data: empty },
        };
        user_create_profile(&mut ctx, admin, comm, rent, TS).unwrap();
        self.store_wallet(ctx.authority);
        self.store_user(ctx.user_profile);
        pda
    }

    fn user_update_comm_key(&mut self, authority: Pubkey, admin: Pubkey, new_key: Pubkey) {
        let pda = user_pda(&authority, &admin).unwrap();
        self.pay_fee(authority);
        let mut ctx = UserUpdateCommKey {
            authority: self.wallet(authority),
            admin_profile: self.admin_account(admin),
            user_profile: self.user_account(pda),
        };
        user_update_comm_key(&mut ctx, new_key, TS).unwrap();
        self.store_user(ctx.user_profile);
    }

    fn user_close_profile(&mut self, authority: Pubkey, admin: Pubkey) {
        let pda = user_pda(&authority, &admin).unwrap();
        self.pay_fee(authority);
        let mut ctx = UserCloseProfile {
            authority: self.wallet(authority),
            admin_profile: self.admin_account(admin),
            user_profile: self.user_account(pda),
        };
        user_close_profile(&mut ctx, TS).unwrap();
        self.store_wallet(ctx.authority);
        self.users.remove(&pda);
        self.user_sizes.remove(&pda);
    }

    fn user_deposit(&mut self, authority: Pubkey, admin: Pubkey, amount: u64) {
        let pda = user_pda(&authority, &admin).unwrap();
        self.pay_fee(authority);
        let mut ctx = UserDeposit {
            authority: self.wallet(authority),
            admin_profile: self.admin_account(admin),
            user_profile: self.user_account(pda),
        };
        user_deposit(&mut ctx, amount, TS).unwrap();
        self.store_wallet(ctx.authority);
        self.store_user(ctx.user_profile);
    }

    fn user_withdraw(&mut self, authority: Pubkey, admin: Pubkey, destination: Pubkey, amount: u64) {
        let pda = user_pda(&authority, &admin).unwrap();
        self.pay_fee(authority);
        let mut ctx = UserWithdraw {
            authority: self.wallet(authority),
            admin_profile: self.admin_account(admin),
            user_profile: self.user_account(pda),
            destination: self.wallet(destination),
        };
        user_withdraw(&mut ctx, amount, rent_minimum(user_space()), TS).unwrap();
        self.store_wallet(ctx.destination);
        self.store_user(ctx.user_profile);
    }

    fn user_dispatch_command(&mut self, authority: Pubkey, admin: Pubkey, command_id: u16, payload: Vec<u8>) {
        let pda = user_pda(&authority, &admin).unwrap();
        self.pay_fee(authority);
        let mut ctx = UserDispatchCommand {
            authority: self.wallet(authority),
            user_profile: self.user_account(pda),
            admin_profile: self.admin_account(admin),
        };
        user_dispatch_command(&mut ctx, command_id, payload, rent_minimum(user_space()), TS).unwrap();
        self.store_user(ctx.user_profile);
        self.store_admin(ctx.admin_profile);
    }

    fn log_action(
        &mut self,
        signer: Pubkey,
        user_pda: Pubkey,
        admin_pda: Pubkey,
        session_id: u64,
        action_code: u16,
    ) -> w3b2::program::events::OffChainActionLogged {
        self.pay_fee(signer);
        let ctx = LogAction {
            authority: self.wallet(signer),
            user_profile: self.user_account(user_pda),
            admin_profile: self.admin_account(admin_pda),
        };
        log_action(&ctx, session_id, action_code, TS).unwrap()
    }
}

#[test]
fn test_admin_create_profile_success() {
    let mut svm = Ledger::new();
    let authority = svm.create_funded_keypair(10 * LAMPORTS_PER_SOL);
    let comm_key = svm.create_keypair();
    let admin_pda = svm.admin_create_profile(authority, comm_key);
    let (lamports, _, admin_profile) = svm.admins.get(&admin_pda).unwrap().clone();
    assert_eq!(admin_profile.authority, authority);
    assert_eq!(admin_profile.communication_pubkey, comm_key);
    assert!(admin_profile.prices.is_empty(), "Prices vector should be empty on initialization");
    assert_eq!(admin_profile.balance, 0, "Balance should be 0 on initialization");
    let space = 8 + ADMIN_PROFILE_SIZE + (10 * PRICE_SLOT);
    let rent_exempt_minimum = rent_minimum(space);
    assert_eq!(lamports, rent_exempt_minimum);
}

#[test]
fn test_admin_update_comm_key_success() {
    let mut svm = Ledger::new();
    let authority = svm.create_funded_keypair(10 * LAMPORTS_PER_SOL);
    let initial_comm_key = svm.create_keypair();
    let admin_pda = svm.admin_create_profile(authority, initial_comm_key);
    let new_comm_key = svm.create_keypair();
    svm.admin_update_comm_key(authority, new_comm_key);
    let admin_profile = svm.admins.get(&admin_pda).unwrap().2.clone();
    assert_eq!(admin_profile.communication_pubkey, new_comm_key);
    assert_ne!(admin_profile.communication_pubkey, initial_comm_key);
    assert_eq!(admin_profile.authority, authority);
}

#[test]
fn test_admin_close_profile_success() {
    let mut svm = Ledger::new();
    let authority = svm.create_funded_keypair(10 * LAMPORTS_PER_SOL);
    let comm_key = svm.create_keypair();
    let admin_pda = svm.admin_create_profile(authority, comm_key);
    let pda_balance = svm.balance(&admin_pda);
    let authority_balance_before = svm.balance(&authority);
    svm.admin_close_profile(authority);
    assert!(svm.admins.get(&admin_pda).is_none(), "Account was not closed!");
    let authority_balance_after = svm.balance(&authority);
    let expected_balance = authority_balance_before + pda_balance - 5000;
    assert_eq!(authority_balance_after, expected_balance);
}

#[test]
fn test_admin_update_prices_success() {
    let mut svm = Ledger::new();
    let authority = svm.create_funded_keypair(10 * LAMPORTS_PER_SOL);
    let comm_key = svm.create_keypair();
    let admin_pda = svm.admin_create_profile(authority, comm_key);
    let new_prices = vec![PriceEntry::new(1, 1000), PriceEntry::new(2, 2500), PriceEntry::new(5, 10000)];
    let size_before = svm.admins.get(&admin_pda).unwrap().1;
    svm.admin_update_prices(authority, new_prices.clone());
    let (_, size_after, admin_profile) = svm.admins.get(&admin_pda).unwrap().clone();
    assert_eq!(admin_profile.prices, new_prices);
    let base_size = 8 + ADMIN_PROFILE_SIZE;
    let expected_size_after = base_size + (new_prices.len() * PRICE_SLOT);
    assert_ne!(size_before, size_after, "Account size should have changed");
    assert_eq!(size_after, expected_size_after, "Account size is not what was expected after realloc");
}

#[test]
fn test_admin_dispatch_command_success() {
    let mut svm = Ledger::new();
    let admin_authority = svm.create_funded_keypair(10 * LAMPORTS_PER_SOL);
    let comm = svm.create_keypair();
    let admin_pda = svm.admin_create_profile(admin_authority, comm);
    let user_authority = svm.create_funded_keypair(10 * LAMPORTS_PER_SOL);
    let user_comm = svm.create_keypair();
    let user_pda = svm.user_create_profile(user_authority, user_comm, admin_pda);
    let (admin_lamports_before, _, admin_profile_before) = svm.admins.get(&admin_pda).unwrap().clone();
    let (user_lamports_before, user_profile_before) = *svm.users.get(&user_pda).unwrap();
    let admin_authority_lamports_before = svm.balance(&admin_authority);
    svm.admin_dispatch_command(admin_authority, user_pda, 101, vec![4, 5, 6]);
    let (admin_lamports_after, _, admin_profile_after) = svm.admins.get(&admin_pda).unwrap().clone();
    let (user_lamports_after, user_profile_after) = *svm.users.get(&user_pda).unwrap();
    let admin_authority_lamports_after = svm.balance(&admin_authority);
    assert_eq!(admin_profile_after.balance, admin_profile_before.balance);
    assert_eq!(user_profile_after.deposit_balance, user_profile_before.deposit_balance);
    assert_eq!(admin_lamports_after, admin_lamports_before);
    assert_eq!(user_lamports_after, user_lamports_before);
    let expected_admin_authority_balance = admin_authority_lamports_before - 5000;
    assert_eq!(admin_authority_lamports_after, expected_admin_authority_balance);
}

#[test]
fn test_admin_withdraw_success() {
    let mut svm = Ledger::new();
    let admin_authority = svm.create_funded_keypair(10 * LAMPORTS_PER_SOL);
    let comm = svm.create_keypair();
    let admin_pda = svm.admin_create_profile(admin_authority, comm);
    let command_price = LAMPORTS_PER_SOL;
    svm.admin_update_prices(admin_authority, vec![PriceEntry::new(1, command_price)]);
    let user_authority = svm.create_funded_keypair(10 * LAMPORTS_PER_SOL);
    let user_comm = svm.create_keypair();
    let _ = svm.user_create_profile(user_authority, user_comm, admin_pda);
    let deposit_amount = 2 * LAMPORTS_PER_SOL;
    svm.user_deposit(user_authority, admin_pda, deposit_amount);
    svm.user_dispatch_command(user_authority, admin_pda, 1, vec![1, 2, 3]);
    let destination_wallet = svm.create_keypair();
    let withdraw_amount = command_price / 2;
    let (pda_lamports_before, _, admin_profile_before) = svm.admins.get(&admin_pda).unwrap().clone();
    let destination_balance_before = 0;
    assert_eq!(admin_profile_before.balance, command_price);
    svm.admin_withdraw(admin_authority, destination_wallet, withdraw_amount);
    let (pda_lamports_after, _, admin_profile_after) = svm.admins.get(&admin_pda).unwrap().clone();
    let destination_balance_after = svm.balance(&destination_wallet);
    assert_eq!(admin_profile_after.balance, admin_profile_before.balance - withdraw_amount);
    assert_eq!(pda_lamports_after, pda_lamports_before - withdraw_amount);
    assert_eq!(destination_balance_after, destination_balance_before + withdraw_amount);
}

#[test]
fn test_user_create_profile_success() {
    let mut svm = Ledger::new();
    let admin_authority = svm.create_funded_keypair(10 * LAMPORTS_PER_SOL);
    let comm = svm.create_keypair();
    let admin_pda = svm.admin_create_profile(admin_authority, comm);
    let user_authority = svm.create_funded_keypair(10 * LAMPORTS_PER_SOL);
    let user_comm_key = svm.create_keypair();
    let user_pda = svm.user_create_profile(user_authority, user_comm_key, admin_pda);
    let (lamports, user_profile) = *svm.users.get(&user_pda).unwrap();
    assert_eq!(user_profile.authority, user_authority);
    assert_eq!(user_profile.communication_pubkey, user_comm_key);
    assert_eq!(user_profile.deposit_balance, 0, "Deposit balance should be 0 on initialization");
    let space = 8 + USER_PROFILE_SIZE;
    let rent_exempt_minimum = rent_minimum(space);
    assert_eq!(lamports, rent_exempt_minimum);
}

#[test]
fn test_user_update_comm_key_success() {
    let mut svm = Ledger::new();
    let admin_authority = svm.create_funded_keypair(10 * LAMPORTS_PER_SOL);
    let comm = svm.create_keypair();
    let admin_pda = svm.admin_create_profile(admin_authority, comm);
    let user_authority = svm.create_funded_keypair(10 * LAMPORTS_PER_SOL);
    let initial_comm_key = svm.create_keypair();
    let user_pda = svm.user_create_profile(user_authority, initial_comm_key, admin_pda);
    let new_comm_key = svm.create_keypair();
    svm.user_update_comm_key(user_authority, admin_pda, new_comm_key);
    let user_profile = svm.users.get(&user_pda).unwrap().1;
    assert_eq!(user_profile.communication_pubkey, new_comm_key);
    assert_ne!(user_profile.communication_pubkey, initial_comm_key);
    assert_eq!(user_profile.authority, user_authority);
    assert_eq!(user_profile.deposit_balance, 0);
}

#[test]
fn test_user_close_profile_success() {
    let mut svm = Ledger::new();
    let admin_authority = svm.create_funded_keypair(10 * LAMPORTS_PER_SOL);
    let comm = svm.create_keypair();
    let admin_pda = svm.admin_create_profile(admin_authority, comm);
    let user_authority = svm.create_funded_keypair(10 * LAMPORTS_PER_SOL);
    let user_comm = svm.create_keypair();
    let user_pda = svm.user_create_profile(user_authority, user_comm, admin_pda);
    let pda_balance = svm.balance(&user_pda);
    let authority_balance_before = svm.balance(&user_authority);
    svm.user_close_profile(user_authority, admin_pda);
    assert!(svm.users.get(&user_pda).is_none(), "Account was not closed!");
    let authority_balance_after = svm.balance(&user_authority);
    let expected_balance = authority_balance_before + pda_balance - 5000;
    assert_eq!(authority_balance_after, expected_balance);
}

#[test]
fn test_user_deposit_success() {
    let mut svm = Ledger::new();
    let admin_authority = svm.create_funded_keypair(10 * LAMPORTS_PER_SOL);
    let comm = svm.create_keypair();
    let admin_pda = svm.admin_create_profile(admin_authority, comm);
    let user_authority = svm.create_funded_keypair(10 * LAMPORTS_PER_SOL);
    let user_comm = svm.create_keypair();
    let user_pda = svm.user_create_profile(user_authority, user_comm, admin_pda);
    let authority_balance_before = svm.balance(&user_authority);
    let pda_lamports_before = svm.balance(&user_pda);
    let deposit_amount = 2 * LAMPORTS_PER_SOL;
    svm.user_deposit(user_authority, admin_pda, deposit_amount);
    let (lamports_after, user_profile_after) = *svm.users.get(&user_pda).unwrap();
    let authority_balance_after = svm.balance(&user_authority);
    assert_eq!(user_profile_after.deposit_balance, deposit_amount);
    assert_eq!(lamports_after, pda_lamports_before + deposit_amount);
    let expected_authority_balance = authority_balance_before - deposit_amount - 5000;
    assert_eq!(authority_balance_after, expected_authority_balance);
}

#[test]
fn test_user_withdraw_success() {
    let mut svm = Ledger::new();
    let admin_authority = svm.create_funded_keypair(10 * LAMPORTS_PER_SOL);
    let comm = svm.create_keypair();
    let admin_pda = svm.admin_create_profile(admin_authority, comm);
    let user_authority = svm.create_funded_keypair(10 * LAMPORTS_PER_SOL);
    let user_comm = svm.create_keypair();
    let user_pda = svm.user_create_profile(user_authority, user_comm, admin_pda);
    let deposit_amount = 2 * LAMPORTS_PER_SOL;
    svm.user_deposit(user_authority, admin_pda, deposit_amount);
    let destination_wallet = svm.create_keypair();
    let pda_lamports_before = svm.balance(&user_pda);
    let destination_balance_before = 0;
    let withdraw_amount = LAMPORTS_PER_SOL;
    svm.user_withdraw(user_authority, admin_pda, destination_wallet, withdraw_amount);
    let (lamports_after, user_profile_after) = *svm.users.get(&user_pda).unwrap();
    let destination_balance_after = svm.balance(&destination_wallet);
    let expected_deposit_balance = deposit_amount - withdraw_amount;
    assert_eq!(user_profile_after.deposit_balance, expected_deposit_balance);
    assert_eq!(lamports_after, pda_lamports_before - withdraw_amount);
    assert_eq!(destination_balance_after, destination_balance_before + withdraw_amount);
}

#[test]
fn test_user_dispatch_command_success() {
    let mut svm = Ledger::new();
    let admin_authority = svm.create_funded_keypair(10 * LAMPORTS_PER_SOL);
    let comm = svm.create_keypair();
    let admin_pda = svm.admin_create_profile(admin_authority, comm);
    let command_id_to_call = 1;
    let command_price = LAMPORTS_PER_SOL;
    svm.admin_update_prices(admin_authority, vec![PriceEntry::new(command_id_to_call, command_price)]);
    let user_authority = svm.create_funded_keypair(10 * LAMPORTS_PER_SOL);
    let user_comm = svm.create_keypair();
    let user_pda = svm.user_create_profile(user_authority, user_comm, admin_pda);
    let deposit_amount = 2 * LAMPORTS_PER_SOL;
    svm.user_deposit(user_authority, admin_pda, deposit_amount);
    let user_pda_lamports_before = svm.balance(&user_pda);
    let admin_pda_lamports_before = svm.balance(&admin_pda);
    let admin_profile_before = svm.admins.get(&admin_pda).unwrap().2.clone();
    svm.user_dispatch_command(user_authority, admin_pda, command_id_to_call, vec![1, 2, 3]);
    let (user_lamports_after, user_profile_after) = *svm.users.get(&user_pda).unwrap();
    let (admin_lamports_after, _, admin_profile_after) = svm.admins.get(&admin_pda).unwrap().clone();
    assert_eq!(user_profile_after.deposit_balance, deposit_amount - command_price);
    assert_eq!(user_lamports_after, user_pda_lamports_before - command_price);
    assert_eq!(admin_profile_after.balance, admin_profile_before.balance + command_price);
    assert_eq!(admin_lamports_after, admin_pda_lamports_before + command_price);
}

fn setup_profiles(svm: &mut Ledger) -> (Pubkey, Pubkey, Pubkey, Pubkey) {
    let admin_authority = svm.create_funded_keypair(10 * LAMPORTS_PER_SOL);
    let comm = svm.create_keypair();
    let admin_pda = svm.admin_create_profile(admin_authority, comm);
    let user_authority = svm.create_funded_keypair(10 * LAMPORTS_PER_SOL);
    let user_comm = svm.create_keypair();
    let user_pda = svm.user_create_profile(user_authority, user_comm, admin_pda);
    (admin_authority, admin_pda, user_authority, user_pda)
}

// The two log-action scenarios check the emitted event's actor, session id
// and action code. The bridge program's `OffChainActionLogged` event has no
// `target` field (its handler emits only `actor`, `session_id`,
// `action_code` and `ts`), so the target of the logged action is not
// checked here.
#[test]
fn test_log_action_by_user_success() {
    let mut svm = Ledger::new();
    let (_, admin_pda, user_authority, user_pda) = setup_profiles(&mut svm);
    let session_id = 12345;
    let action_code = 200;
    let event = svm.log_action(user_authority, user_pda, admin_pda, session_id, action_code);
    // `OffChainActionLogged` has no `target` field: it is not checked.
    assert_eq!(event.actor, user_authority);
    assert_eq!(event.session_id, session_id);
    assert_eq!(event.action_code, action_code);
}

#[test]
fn test_log_action_by_admin_success() {
    let mut svm = Ledger::new();
    let (admin_authority, admin_pda, _user_authority, user_pda) = setup_profiles(&mut svm);
    let session_id = 54321;
    let action_code = 404;
    let event = svm.log_action(admin_authority, user_pda, admin_pda, session_id, action_code);
    // `OffChainActionLogged` has no `target` field: it is not checked.
    assert_eq!(event.actor, admin_authority);
    assert_eq!(event.session_id, session_id);
    assert_eq!(event.action_code, action_code);
}

#[test]
fn withdrawing_a_deposit_restores_the_profile() {
    let mut svm = Ledger::new();
    let (_, admin_pda, user_authority, user_pda) = setup_profiles(&mut svm);
    let (lamports_before, profile_before) = *svm.users.get(&user_pda).unwrap();
    let wallet_before = svm.balance(&user_authority);
    svm.user_deposit(user_authority, admin_pda, 3 * LAMPORTS_PER_SOL);
    svm.user_withdraw(user_authority, admin_pda, user_authority, 3 * LAMPORTS_PER_SOL);
    let (lamports_after, profile_after) = *svm.users.get(&user_pda).unwrap();
    assert_eq!(profile_after, profile_before);
    assert_eq!(lamports_after, lamports_before);
    assert_eq!(svm.balance(&user_authority), wallet_before - 2 * FEE);
}

#[test]
fn new_profiles_have_their_sizes() {
    let mut svm = Ledger::new();
    let (_, admin_pda, _, user_pda) = setup_profiles(&mut svm);
    assert_eq!(svm.admins.get(&admin_pda).unwrap().1, 8 + ADMIN_PROFILE_SIZE + DEFAULT_API_SIZE * PRICE_SLOT);
    assert_eq!(svm.user_sizes[&user_pda], 8 + USER_PROFILE_SIZE);
}

#[test]
fn a_closed_admin_profile_can_be_registered_again() {
    let mut svm = Ledger::new();
    let authority = svm.create_funded_keypair(10 * LAMPORTS_PER_SOL);
    let comm = svm.create_keypair();
    let pda = admin_pda(&authority).unwrap();
    let empty = AdminProfile { authority: Pubkey::zero(), communication_pubkey: Pubkey::zero(), prices: Vec::new(), balance: 0 };
    let mut ctx = AdminRegisterProfile {
        authority: svm.wallet(authority),
        admin_profile: ProfileAccount { key: pda, lamports: 0, data_len: 0, data: empty },
    };
    let rent = rent_minimum(admin_space(DEFAULT_API_SIZE));
    admin_register_profile(&mut ctx, comm, rent, TS).unwrap();
    // A second registration at the same address is refused.
    let again = admin_register_profile(&mut ctx, comm, rent, TS);
    assert_eq!(again, Err(w3b2::program::errors::InstructionError::AccountAlreadyInUse));
    let mut close = AdminCloseProfile { authority: ctx.authority, admin_profile: ctx.admin_profile.clone() };
    admin_close_profile(&mut close, TS).unwrap();
    assert_eq!(close.admin_profile.lamports, 0);
    assert_eq!(close.admin_profile.data_len, 0);
    let mut ctx = AdminRegisterProfile { authority: close.authority, admin_profile: close.admin_profile };
    let ev = admin_register_profile(&mut ctx, comm, rent, TS).unwrap();
    assert_eq!(ev.authority, authority);
    assert_eq!(ctx.admin_profile.lamports, rent);
}
