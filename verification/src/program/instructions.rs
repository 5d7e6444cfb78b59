//! The instruction handlers of the bridge program.
//!
//! Each handler checks the account constraints that the program declares for
//! the instruction, then applies the instruction to the accounts and returns
//! the event that it emits. The account that an instruction creates is checked
//! first, then the others in the order in which they are listed; for each
//! account, a resize comes first, then the address (the seeds it is derived
//! from), then the other constraints. The
//! rent-exempt minimum of the profile account and the cluster time are read by
//! the caller from the runtime and handed in.
use vstd::prelude::*;
use crate::pubkey::Pubkey;
use crate::program::state::{
    ADMIN_PROFILE_RECORD_SIZE, AdminProfile, DEFAULT_API_SIZE, MAX_PERMITTED_DATA_INCREASE,
    PRICE_SLOT_SIZE, PriceEntry, USER_PROFILE_RECORD_SIZE, UserProfile, admin_profile_space,
    lookup_price, normalize_prices, normalized_prices, price_of, user_profile_space,
};
use crate::program::errors::{BridgeError, InstructionError};
use crate::program::events::{
    AdminCommKeyUpdated, AdminCommandDispatched, AdminFundsWithdrawn, AdminPricesUpdated,
    AdminProfileClosed, AdminProfileRegistered, OffChainActionLogged, UserCommKeyUpdated,
    UserCommandDispatched, UserFundsDeposited, UserFundsWithdrawn, UserProfileClosed,
    UserProfileCreated,
};
use crate::connector::pda::{admin_pda, spec_admin_pda, spec_user_pda, user_pda};
use crate::program::accounts::{
    ProfileAccount, AdminCloseProfile, AdminDispatchCommand, AdminRegisterProfile, AdminUpdateCommKey,
    AdminUpdatePrices, AdminWithdraw, LogAction, UserCloseProfile, UserCreateProfile, UserDeposit,
    UserDispatchCommand, UserUpdateCommKey, UserWithdraw,
};

verus! {

/// The maximum size in bytes of the `payload` of a dispatch instruction.
pub const MAX_PAYLOAD_SIZE: usize = 1000;

/// The seeds constraint on an admin profile: it lives at the address derived
/// from `["admin", authority]`. Where no bump seed gives an address, the
/// derivation fails and the check fails with it.
pub open spec fn admin_seeds_ok(authority: Pubkey, profile: Pubkey) -> bool {
    spec_admin_pda(authority) == Some(profile)
}

/// The seeds constraint on a user profile: it lives at the address derived
/// from `["user", authority, admin_profile]`. Where no bump seed gives an
/// address, the derivation fails and the check fails with it.
pub open spec fn user_seeds_ok(authority: Pubkey, admin_profile: Pubkey, profile: Pubkey) -> bool {
    spec_user_pda(authority, admin_profile) == Some(profile)
}

fn check_admin_seeds(authority: &Pubkey, profile: &Pubkey) -> (r: bool)
    ensures
        r == admin_seeds_ok(*authority, *profile),
{
    match admin_pda(authority) {
        Some(k) => k == *profile,
        None => false,
    }
}

fn check_user_seeds(authority: &Pubkey, admin_profile: &Pubkey, profile: &Pubkey) -> (r: bool)
    ensures
        r == user_seeds_ok(*authority, *admin_profile, *profile),
{
    match user_pda(authority, admin_profile) {
        Some(k) => k == *profile,
        None => false,
    }
}

/// The constraint check of an instruction on the signer's admin profile: the
/// profile must live at the address derived from the signer's key, and the
/// signer must be its authority.
pub open spec fn admin_account_check(signer: Pubkey, admin: ProfileAccount<AdminProfile>) -> Option<
    InstructionError,
> {
    if !admin_seeds_ok(signer, admin.key) {
        Some(InstructionError::ConstraintSeeds)
    } else if admin.data.authority != signer {
        Some(InstructionError::Bridge(BridgeError::SignerUnauthorized))
    } else {
        None
    }
}

fn check_admin_account(signer: &Pubkey, admin: &ProfileAccount<AdminProfile>) -> (r: Result<
    (),
    InstructionError,
>)
    ensures
        match admin_account_check(*signer, *admin) {
            Some(e) => r == Err::<(), InstructionError>(e),
            None => r is Ok,
        },
{
    if !check_admin_seeds(signer, &admin.key) {
        Err(InstructionError::ConstraintSeeds)
    } else if admin.data.authority != *signer {
        Err(InstructionError::Bridge(BridgeError::SignerUnauthorized))
    } else {
        Ok(())
    }
}

/// The constraint check of an instruction on a user profile: the signer must
/// be the profile's authority, and the profile must belong to the given admin
/// profile.
pub open spec fn user_profile_check(
    signer: Pubkey,
    user: UserProfile,
    admin_key: Pubkey,
) -> Option<BridgeError> {
    if user.authority != signer {
        Some(BridgeError::SignerUnauthorized)
    } else if user.admin_profile_on_creation != admin_key {
        Some(BridgeError::AdminMismatch)
    } else {
        None
    }
}

/// The constraint check of an instruction on the signer's user profile: the
/// profile must live at the address derived from the signer's key and the
/// admin profile's address, and `user_profile_check` must pass.
pub open spec fn user_account_check(
    signer: Pubkey,
    user: ProfileAccount<UserProfile>,
    admin_key: Pubkey,
) -> Option<InstructionError> {
    if !user_seeds_ok(signer, admin_key, user.key) {
        Some(InstructionError::ConstraintSeeds)
    } else {
        match user_profile_check(signer, user.data, admin_key) {
            Some(e) => Some(InstructionError::Bridge(e)),
            None => None,
        }
    }
}

fn check_user_account(
    signer: &Pubkey,
    user: &ProfileAccount<UserProfile>,
    admin_key: &Pubkey,
) -> (r: Result<(), InstructionError>)
    ensures
        match user_account_check(*signer, *user, *admin_key) {
            Some(e) => r == Err::<(), InstructionError>(e),
            None => r is Ok,
        },
{
    if !check_user_seeds(signer, admin_key, &user.key) {
        return Err(InstructionError::ConstraintSeeds);
    }
    if user.data.authority != *signer {
        Err(InstructionError::Bridge(BridgeError::SignerUnauthorized))
    } else if user.data.admin_profile_on_creation != *admin_key {
        Err(InstructionError::Bridge(BridgeError::AdminMismatch))
    } else {
        Ok(())
    }
}

/// The constraint checks of the instructions: a check on the signer's admin
/// profile passes exactly when the profile lives at the address derived from
/// `["admin", signer]` and names the signer as its authority, and reports the
/// address first; a check on a user profile passes exactly when the profile
/// names the signer as its authority and the given admin profile as its
/// admin, and reports the signer first; a check on the signer's user profile
/// also asks, before all else, that the profile lives at the address derived
/// from `["user", signer, admin_profile]`.
pub proof fn lemma_constraint_checks(
    signer: Pubkey,
    admin: ProfileAccount<AdminProfile>,
    user: ProfileAccount<UserProfile>,
    admin_key: Pubkey,
)
    ensures
        admin_account_check(signer, admin) is None <==> (spec_admin_pda(signer) == Some(admin.key)
            && admin.data.authority == signer),
        spec_admin_pda(signer) != Some(admin.key) ==> admin_account_check(signer, admin) == Some(
            InstructionError::ConstraintSeeds,
        ),
        spec_admin_pda(signer) == Some(admin.key) && admin.data.authority != signer
            ==> admin_account_check(signer, admin) == Some(
            InstructionError::Bridge(BridgeError::SignerUnauthorized),
        ),
        user_profile_check(signer, user.data, admin_key) is None <==> (user.data.authority == signer
            && user.data.admin_profile_on_creation == admin_key),
        user.data.authority != signer ==> user_profile_check(signer, user.data, admin_key) == Some(
            BridgeError::SignerUnauthorized,
        ),
        user.data.authority == signer && user.data.admin_profile_on_creation != admin_key
            ==> user_profile_check(signer, user.data, admin_key) == Some(BridgeError::AdminMismatch),
        spec_user_pda(signer, admin_key) != Some(user.key) ==> user_account_check(signer, user, admin_key)
            == Some(InstructionError::ConstraintSeeds),
        spec_user_pda(signer, admin_key) == Some(user.key) ==> user_account_check(signer, user, admin_key)
            == match user_profile_check(signer, user.data, admin_key) {
            Some(e) => Some(InstructionError::Bridge(e)),
            None => None::<InstructionError>,
        },
{
}

/// A new profile ends up holding the larger of what its address held and the
/// rent-exempt minimum: the payer adds only what is missing.
pub proof fn lemma_creation_funds_up_to_rent(current: u64, rent_exempt_minimum: u64)
    ensures
        current + creation_shortfall(current, rent_exempt_minimum) == if current >= rent_exempt_minimum {
            current as int
        } else {
            rent_exempt_minimum as int
        },
{
}

/// Resizing a profile: growing leaves it with at least its balance and at
/// least the new minimum, adding nothing beyond the minimum; shrinking leaves
/// it exactly at the new minimum; keeping the size keeps the balance.
pub proof fn lemma_resizing_moves_rent(lamports: u64, current_len: int, new_len: int, new_rent: u64)
    ensures
        new_len > current_len ==> {
            &&& resized_lamports(lamports, current_len, new_len, new_rent) >= lamports
            &&& resized_lamports(lamports, current_len, new_len, new_rent) >= new_rent
            &&& (resized_lamports(lamports, current_len, new_len, new_rent) == lamports
                || resized_lamports(lamports, current_len, new_len, new_rent) == new_rent)
        },
        new_len < current_len ==> resized_lamports(lamports, current_len, new_len, new_rent) == new_rent,
        new_len == current_len ==> resized_lamports(lamports, current_len, new_len, new_rent) == lamports,
{
}

// --- Admin instructions ---

/// The lamports the runtime moves from the payer into an account it creates:
/// what the account lacks of the rent-exempt minimum.
pub open spec fn creation_shortfall(current: u64, rent_exempt_minimum: u64) -> u64 {
    if rent_exempt_minimum > current {
        (rent_exempt_minimum - current) as u64
    } else {
        0
    }
}

/// Initializes a new admin profile for the signing wallet at the address
/// derived from `["admin", wallet]`: the account is created with room for
/// `DEFAULT_API_SIZE` prices and funded by the wallet up to
/// `rent_exempt_minimum` (the rent-exempt minimum of that size), the wallet
/// becomes its authority, the price list is empty and the balance is 0. The
/// wallet must hold the lamports the account lacks, and the address must not
/// hold a profile already: an account without lamports is checked for that
/// before the transfer, one with lamports after it, and only once it is
/// checked not to be the paying wallet itself.
pub fn admin_register_profile(
    ctx: &mut AdminRegisterProfile,
    communication_pubkey: Pubkey,
    rent_exempt_minimum: u64,
    ts: i64,
) -> (r: Result<AdminProfileRegistered, InstructionError>)
    ensures
        ({
            let pre = old(ctx).admin_profile;
            let required = creation_shortfall(pre.lamports, rent_exempt_minimum);
            if !admin_seeds_ok(old(ctx).authority.key, pre.key) {
                r == Err::<AdminProfileRegistered, InstructionError>(InstructionError::ConstraintSeeds)
            } else if pre.lamports == 0 && pre.data_len != 0 {
                r == Err::<AdminProfileRegistered, InstructionError>(
                    InstructionError::AccountAlreadyInUse,
                )
            } else if pre.lamports != 0 && old(ctx).authority.key == pre.key {
                r == Err::<AdminProfileRegistered, InstructionError>(
                    InstructionError::TryingToInitPayerAsProgramAccount,
                )
            } else if old(ctx).authority.lamports < required {
                r == Err::<AdminProfileRegistered, InstructionError>(InstructionError::InsufficientFunds)
            } else if pre.data_len != 0 {
                r == Err::<AdminProfileRegistered, InstructionError>(
                    InstructionError::AccountAlreadyInUse,
                )
            } else {
                &&& r == Ok::<AdminProfileRegistered, InstructionError>(
                    AdminProfileRegistered { authority: old(ctx).authority.key, communication_pubkey, ts },
                )
                &&& final(ctx).admin_profile.data.authority == old(ctx).authority.key
                &&& final(ctx).admin_profile.data.communication_pubkey == communication_pubkey
                &&& final(ctx).admin_profile.data.prices@ == Seq::<PriceEntry>::empty()
                &&& final(ctx).admin_profile.data.balance == 0
                &&& final(ctx).admin_profile.data.wf()
                &&& final(ctx).admin_profile.data_len == admin_profile_space(DEFAULT_API_SIZE as int)
                &&& final(ctx).admin_profile.lamports == pre.lamports + required
                &&& final(ctx).authority.lamports == old(ctx).authority.lamports - required
            }
        }),
        r is Err ==> final(ctx).admin_profile == old(ctx).admin_profile && final(ctx).authority
            == old(ctx).authority,
        final(ctx).admin_profile.key == old(ctx).admin_profile.key,
        final(ctx).authority.key == old(ctx).authority.key,
        old(ctx).admin_profile.data.wf() ==> final(ctx).admin_profile.data.wf(),
{
    if !check_admin_seeds(&ctx.authority.key, &ctx.admin_profile.key) {
        return Err(InstructionError::ConstraintSeeds);
    }
    if ctx.admin_profile.lamports == 0 && ctx.admin_profile.data_len != 0 {
        return Err(InstructionError::AccountAlreadyInUse);
    }
    if ctx.admin_profile.lamports != 0 && ctx.authority.key == ctx.admin_profile.key {
        return Err(InstructionError::TryingToInitPayerAsProgramAccount);
    }
    let required = if rent_exempt_minimum > ctx.admin_profile.lamports {
        rent_exempt_minimum - ctx.admin_profile.lamports
    } else {
        0
    };
    if ctx.authority.lamports < required {
        return Err(InstructionError::InsufficientFunds);
    }
    if ctx.admin_profile.data_len != 0 {
        return Err(InstructionError::AccountAlreadyInUse);
    }
    ctx.authority.lamports = ctx.authority.lamports - required;
    ctx.admin_profile.lamports = ctx.admin_profile.lamports + required;
    ctx.admin_profile.data_len = 8 + ADMIN_PROFILE_RECORD_SIZE + DEFAULT_API_SIZE * PRICE_SLOT_SIZE;
    ctx.admin_profile.data.authority = ctx.authority.key;
    ctx.admin_profile.data.communication_pubkey = communication_pubkey;
    ctx.admin_profile.data.prices = Vec::new();
    ctx.admin_profile.data.balance = 0;
    Ok(
        AdminProfileRegistered {
            authority: ctx.admin_profile.data.authority,
            communication_pubkey: ctx.admin_profile.data.communication_pubkey,
            ts,
        },
    )
}

/// Replaces the communication key of an admin profile.
pub fn admin_update_comm_key(ctx: &mut AdminUpdateCommKey, new_key: Pubkey, ts: i64) -> (r: Result<
    AdminCommKeyUpdated,
    InstructionError,
>)
    ensures
        final(ctx).admin_profile.data_len == old(ctx).admin_profile.data_len,
        match admin_account_check(old(ctx).authority.key, old(ctx).admin_profile) {
            Some(e) => r == Err::<AdminCommKeyUpdated, InstructionError>(e) && final(ctx).admin_profile
                == old(ctx).admin_profile,
            None => {
                &&& r == Ok::<AdminCommKeyUpdated, InstructionError>(
                    AdminCommKeyUpdated {
                        authority: old(ctx).authority.key,
                        new_comm_pubkey: new_key,
                        ts,
                    },
                )
                &&& final(ctx).admin_profile.data.communication_pubkey == new_key
                &&& final(ctx).admin_profile.data.authority == old(ctx).admin_profile.data.authority
                &&& final(ctx).admin_profile.data.prices@ == old(ctx).admin_profile.data.prices@
                &&& final(ctx).admin_profile.data.balance == old(ctx).admin_profile.data.balance
                &&& final(ctx).admin_profile.key == old(ctx).admin_profile.key
                &&& final(ctx).admin_profile.lamports == old(ctx).admin_profile.lamports
            },
        },
        final(ctx).authority == old(ctx).authority,
{
    check_admin_account(&ctx.authority.key, &ctx.admin_profile)?;
    ctx.admin_profile.data.communication_pubkey = new_key;
    Ok(AdminCommKeyUpdated { authority: ctx.authority.key, new_comm_pubkey: new_key, ts })
}

/// Closes an admin profile: all of its lamports return to the authority's
/// wallet and its data is released, which leaves the address free for a new
/// profile.
pub fn admin_close_profile(ctx: &mut AdminCloseProfile, ts: i64) -> (r: Result<
    AdminProfileClosed,
    InstructionError,
>)
    requires
        admin_account_check(old(ctx).authority.key, old(ctx).admin_profile) is None
            ==> old(ctx).authority.lamports + old(ctx).admin_profile.lamports <= u64::MAX,
    ensures
        match admin_account_check(old(ctx).authority.key, old(ctx).admin_profile) {
            Some(e) => r == Err::<AdminProfileClosed, InstructionError>(e) && final(ctx).admin_profile
                == old(ctx).admin_profile && final(ctx).authority == old(ctx).authority,
            None => {
                &&& r == Ok::<AdminProfileClosed, InstructionError>(
                    AdminProfileClosed { authority: old(ctx).authority.key, ts },
                )
                &&& final(ctx).admin_profile.lamports == 0
                &&& final(ctx).admin_profile.data_len == 0
                &&& final(ctx).admin_profile.key == old(ctx).admin_profile.key
                &&& final(ctx).authority.lamports == old(ctx).authority.lamports
                    + old(ctx).admin_profile.lamports
                &&& final(ctx).authority.key == old(ctx).authority.key
            },
        },
        // lamports move between the two accounts and are never created
        final(ctx).authority.lamports + final(ctx).admin_profile.lamports == old(ctx).authority.lamports
            + old(ctx).admin_profile.lamports,
{
    check_admin_account(&ctx.authority.key, &ctx.admin_profile)?;
    let ev = AdminProfileClosed { authority: ctx.authority.key, ts };
    ctx.authority.lamports = ctx.authority.lamports + ctx.admin_profile.lamports;
    ctx.admin_profile.lamports = 0;
    ctx.admin_profile.data_len = 0;
    Ok(ev)
}

/// The lamports of an admin profile after it is resized from `current_len`
/// to `new_len` bytes: growing tops it up to the new rent-exempt minimum when
/// it holds less; shrinking gives back everything above the new minimum.
pub open spec fn resized_lamports(lamports: u64, current_len: int, new_len: int, new_rent: u64) -> int {
    if new_len > current_len {
        if new_rent > lamports {
            new_rent as int
        } else {
            lamports as int
        }
    } else if new_len < current_len {
        new_rent as int
    } else {
        lamports as int
    }
}

/// Replaces the price list of an admin profile with `new_prices` sorted by
/// command id, one entry per command id. First the account is resized to
/// room for as many entries as `new_prices` holds, the authority paying or
/// receiving the difference in rent (`new_rent_exempt_minimum` is the
/// rent-exempt minimum of the new size); then the profile must be the
/// signer's (`admin_account_check`).
pub fn admin_update_prices(
    ctx: &mut AdminUpdatePrices,
    new_prices: Vec<PriceEntry>,
    new_rent_exempt_minimum: u64,
    ts: i64,
) -> (r: Result<AdminPricesUpdated, InstructionError>)
    requires
        admin_profile_space(new_prices@.len() as int) <= usize::MAX,
        admin_profile_space(new_prices@.len() as int) < old(ctx).admin_profile.data_len ==> {
            &&& old(ctx).admin_profile.lamports >= new_rent_exempt_minimum
            &&& old(ctx).authority.lamports + (old(ctx).admin_profile.lamports - new_rent_exempt_minimum)
                <= u64::MAX
        },
    ensures
        ({
            let cur = old(ctx).admin_profile.data_len as int;
            let new_len = admin_profile_space(new_prices@.len() as int);
            let lam = old(ctx).admin_profile.lamports;
            let new_lam = resized_lamports(lam, cur, new_len, new_rent_exempt_minimum);
            if new_len > cur && new_len - cur > MAX_PERMITTED_DATA_INCREASE {
                r == Err::<AdminPricesUpdated, InstructionError>(InstructionError::ReallocExceedsLimit)
            } else if new_len > cur && new_rent_exempt_minimum > lam && old(ctx).authority.lamports
                < new_rent_exempt_minimum - lam {
                r == Err::<AdminPricesUpdated, InstructionError>(InstructionError::InsufficientFunds)
            } else if admin_account_check(old(ctx).authority.key, old(ctx).admin_profile) is Some {
                r == Err::<AdminPricesUpdated, InstructionError>(
                    admin_account_check(old(ctx).authority.key, old(ctx).admin_profile).unwrap(),
                )
            } else {
                &&& r is Ok
                &&& normalized_prices(new_prices@, final(ctx).admin_profile.data.prices@)
                &&& r->Ok_0.new_prices@ == final(ctx).admin_profile.data.prices@
                &&& r->Ok_0.authority == old(ctx).authority.key
                &&& r->Ok_0.ts == ts
                &&& final(ctx).admin_profile.data.authority == old(ctx).admin_profile.data.authority
                &&& final(ctx).admin_profile.data.communication_pubkey
                    == old(ctx).admin_profile.data.communication_pubkey
                &&& final(ctx).admin_profile.data.balance == old(ctx).admin_profile.data.balance
                &&& final(ctx).admin_profile.data_len == new_len
                &&& final(ctx).admin_profile.lamports == new_lam
                &&& final(ctx).authority.lamports == old(ctx).authority.lamports + lam - new_lam
            }
        }),
        r is Err ==> final(ctx).admin_profile == old(ctx).admin_profile && final(ctx).authority
            == old(ctx).authority,
        final(ctx).admin_profile.key == old(ctx).admin_profile.key,
        final(ctx).authority.key == old(ctx).authority.key,
        final(ctx).authority.lamports + final(ctx).admin_profile.lamports == old(ctx).authority.lamports
            + old(ctx).admin_profile.lamports,
        old(ctx).admin_profile.data.wf() ==> final(ctx).admin_profile.data.wf(),
{
    let cur = ctx.admin_profile.data_len;
    let new_len = 8 + ADMIN_PROFILE_RECORD_SIZE + new_prices.len() * PRICE_SLOT_SIZE;
    let lam = ctx.admin_profile.lamports;
    let mut new_lam = lam;
    let mut new_auth = ctx.authority.lamports;
    if new_len > cur {
        if new_len - cur > MAX_PERMITTED_DATA_INCREASE {
            return Err(InstructionError::ReallocExceedsLimit);
        }
        if new_rent_exempt_minimum > lam {
            let topup = new_rent_exempt_minimum - lam;
            if ctx.authority.lamports < topup {
                return Err(InstructionError::InsufficientFunds);
            }
            new_auth = ctx.authority.lamports - topup;
            new_lam = new_rent_exempt_minimum;
        }
    } else if new_len < cur {
        let refund = lam - new_rent_exempt_minimum;
        new_auth = ctx.authority.lamports + refund;
        new_lam = new_rent_exempt_minimum;
    }
    check_admin_account(&ctx.authority.key, &ctx.admin_profile)?;
    ctx.authority.lamports = new_auth;
    ctx.admin_profile.lamports = new_lam;
    ctx.admin_profile.data_len = new_len;
    let prices = normalize_prices(&new_prices);
    let copy = prices.clone();
    assert(copy@ == prices@);
    ctx.admin_profile.data.prices = prices;
    Ok(AdminPricesUpdated { authority: ctx.authority.key, new_prices: copy, ts })
}

/// The withdrawal of `amount` from a profile holding `balance` internally and
/// `lamports` on chain gets as far as moving lamports.
pub open spec fn withdraw_moves_lamports(
    balance: u64,
    lamports: u64,
    amount: u64,
    rent_exempt_minimum: u64,
) -> bool {
    balance >= amount && lamports >= amount && lamports - amount >= rent_exempt_minimum
}

/// Withdraws `amount` of the admin's collected fees to `destination`.
pub fn admin_withdraw(
    ctx: &mut AdminWithdraw,
    amount: u64,
    rent_exempt_minimum: u64,
    ts: i64,
) -> (r: Result<AdminFundsWithdrawn, InstructionError>)
    requires
        old(ctx).destination.key != old(ctx).admin_profile.key,
        admin_account_check(old(ctx).authority.key, old(ctx).admin_profile) is None && old(
            ctx,
        ).admin_profile.data.balance >= amount ==> old(ctx).admin_profile.lamports >= amount,
        admin_account_check(old(ctx).authority.key, old(ctx).admin_profile) is None
            && withdraw_moves_lamports(
            old(ctx).admin_profile.data.balance,
            old(ctx).admin_profile.lamports,
            amount,
            rent_exempt_minimum,
        ) ==> old(ctx).destination.lamports + amount <= u64::MAX,
    ensures
        final(ctx).admin_profile.data_len == old(ctx).admin_profile.data_len,
        ({
            let pre = old(ctx).admin_profile;
            match admin_account_check(old(ctx).authority.key, pre) {
                Some(e) => r == Err::<AdminFundsWithdrawn, InstructionError>(e),
                None => if pre.data.balance < amount {
                    r == Err::<AdminFundsWithdrawn, InstructionError>(
                        InstructionError::Bridge(BridgeError::InsufficientAdminBalance),
                    )
                } else if pre.lamports - amount < rent_exempt_minimum {
                    r == Err::<AdminFundsWithdrawn, InstructionError>(
                        InstructionError::Bridge(BridgeError::RentExemptViolation),
                    )
                } else {
                    r == Ok::<AdminFundsWithdrawn, InstructionError>(
                        AdminFundsWithdrawn {
                            authority: pre.data.authority,
                            amount,
                            destination: old(ctx).destination.key,
                            ts,
                        },
                    )
                },
            }
        }),
        r is Err ==> final(ctx).admin_profile == old(ctx).admin_profile && final(ctx).destination
            == old(ctx).destination,
        r is Ok ==> {
            &&& final(ctx).admin_profile.data.balance == old(ctx).admin_profile.data.balance - amount
            &&& final(ctx).admin_profile.lamports == old(ctx).admin_profile.lamports - amount
            &&& final(ctx).destination.lamports == old(ctx).destination.lamports + amount
            &&& final(ctx).admin_profile.lamports >= rent_exempt_minimum
            &&& final(ctx).admin_profile.data.prices@ == old(ctx).admin_profile.data.prices@
            &&& final(ctx).admin_profile.data.authority == old(ctx).admin_profile.data.authority
            &&& final(ctx).admin_profile.data.communication_pubkey
                == old(ctx).admin_profile.data.communication_pubkey
            &&& final(ctx).admin_profile.key == old(ctx).admin_profile.key
            &&& final(ctx).destination.key == old(ctx).destination.key
        },
        final(ctx).authority == old(ctx).authority,
        final(ctx).admin_profile.lamports + final(ctx).destination.lamports
            == old(ctx).admin_profile.lamports + old(ctx).destination.lamports,
        old(ctx).admin_profile.data.wf() ==> final(ctx).admin_profile.data.wf(),
{
    check_admin_account(&ctx.authority.key, &ctx.admin_profile)?;
    if ctx.admin_profile.data.balance < amount {
        return Err(InstructionError::Bridge(BridgeError::InsufficientAdminBalance));
    }
    if ctx.admin_profile.lamports - amount < rent_exempt_minimum {
        return Err(InstructionError::Bridge(BridgeError::RentExemptViolation));
    }
    ctx.admin_profile.lamports = ctx.admin_profile.lamports - amount;
    ctx.destination.lamports = ctx.destination.lamports + amount;
    ctx.admin_profile.data.balance = ctx.admin_profile.data.balance - amount;
    Ok(
        AdminFundsWithdrawn {
            authority: ctx.admin_profile.data.authority,
            amount,
            destination: ctx.destination.key,
            ts,
        },
    )
}

/// Sends a command from an admin to one of its users. No lamports move.
pub fn admin_dispatch_command(
    ctx: &AdminDispatchCommand,
    command_id: u64,
    payload: Vec<u8>,
    ts: i64,
) -> (r: Result<AdminCommandDispatched, InstructionError>)
    ensures
        ({
            match admin_account_check(ctx.admin_authority.key, ctx.admin_profile) {
                Some(e) => r == Err::<AdminCommandDispatched, InstructionError>(e),
                None => if ctx.user_profile.data.admin_profile_on_creation != ctx.admin_profile.key {
                    r == Err::<AdminCommandDispatched, InstructionError>(
                        InstructionError::Bridge(BridgeError::AdminMismatch),
                    )
                } else if payload@.len() > MAX_PAYLOAD_SIZE {
                    r == Err::<AdminCommandDispatched, InstructionError>(
                        InstructionError::Bridge(BridgeError::PayloadTooLarge),
                    )
                } else {
                    &&& r is Ok
                    &&& r->Ok_0.sender == ctx.admin_authority.key
                    &&& r->Ok_0.target_user_authority == ctx.user_profile.data.authority
                    &&& r->Ok_0.command_id == command_id
                    &&& r->Ok_0.payload@ == payload@
                    &&& r->Ok_0.ts == ts
                },
            }
        }),
{
    check_admin_account(&ctx.admin_authority.key, &ctx.admin_profile)?;
    if ctx.user_profile.data.admin_profile_on_creation != ctx.admin_profile.key {
        return Err(InstructionError::Bridge(BridgeError::AdminMismatch));
    }
    if payload.len() > MAX_PAYLOAD_SIZE {
        return Err(InstructionError::Bridge(BridgeError::PayloadTooLarge));
    }
    Ok(
        AdminCommandDispatched {
            sender: ctx.admin_authority.key,
            target_user_authority: ctx.user_profile.data.authority,
            command_id,
            payload,
            ts,
        },
    )
}

// --- User instructions ---

/// Creates a user profile for one admin service at the address derived from
/// `["user", wallet, admin_profile]`: the account is created with the size of
/// a user profile and funded by the user's wallet up to `rent_exempt_minimum`,
/// then linked to the admin profile `target_admin`, which must be the admin
/// profile passed in. The deposit starts at 0. As for an admin profile, the
/// address must not hold a profile already. The admin profile must live at
/// the address derived from its own authority.
pub fn user_create_profile(
    ctx: &mut UserCreateProfile,
    target_admin: Pubkey,
    communication_pubkey: Pubkey,
    rent_exempt_minimum: u64,
    ts: i64,
) -> (r: Result<UserProfileCreated, InstructionError>)
    ensures
        ({
            let pre = old(ctx).user_profile;
            let admin = old(ctx).admin_profile;
            let required = creation_shortfall(pre.lamports, rent_exempt_minimum);
            if !user_seeds_ok(old(ctx).authority.key, admin.key, pre.key) {
                r == Err::<UserProfileCreated, InstructionError>(InstructionError::ConstraintSeeds)
            } else if pre.lamports == 0 && pre.data_len != 0 {
                r == Err::<UserProfileCreated, InstructionError>(InstructionError::AccountAlreadyInUse)
            } else if pre.lamports != 0 && old(ctx).authority.key == pre.key {
                r == Err::<UserProfileCreated, InstructionError>(
                    InstructionError::TryingToInitPayerAsProgramAccount,
                )
            } else if old(ctx).authority.lamports < required {
                r == Err::<UserProfileCreated, InstructionError>(InstructionError::InsufficientFunds)
            } else if pre.data_len != 0 {
                r == Err::<UserProfileCreated, InstructionError>(InstructionError::AccountAlreadyInUse)
            } else if target_admin != admin.key {
                r == Err::<UserProfileCreated, InstructionError>(
                    InstructionError::Bridge(BridgeError::AdminMismatch),
                )
            } else if !admin_seeds_ok(admin.data.authority, admin.key) {
                r == Err::<UserProfileCreated, InstructionError>(InstructionError::ConstraintSeeds)
            } else {
                &&& r == Ok::<UserProfileCreated, InstructionError>(
                    UserProfileCreated {
                        authority: old(ctx).authority.key,
                        target_admin,
                        communication_pubkey,
                        ts,
                    },
                )
                &&& final(ctx).user_profile.data == (UserProfile {
                    authority: old(ctx).authority.key,
                    communication_pubkey,
                    admin_profile_on_creation: target_admin,
                    deposit_balance: 0,
                })
                &&& final(ctx).user_profile.data_len == user_profile_space()
                &&& final(ctx).user_profile.lamports == pre.lamports + required
                &&& final(ctx).authority.lamports == old(ctx).authority.lamports - required
            }
        }),
        r is Err ==> final(ctx).user_profile == old(ctx).user_profile && final(ctx).authority == old(
            ctx,
        ).authority,
        final(ctx).user_profile.key == old(ctx).user_profile.key,
        final(ctx).authority.key == old(ctx).authority.key,
        final(ctx).admin_profile == old(ctx).admin_profile,
{
    if !check_user_seeds(&ctx.authority.key, &ctx.admin_profile.key, &ctx.user_profile.key) {
        return Err(InstructionError::ConstraintSeeds);
    }
    if ctx.user_profile.lamports == 0 && ctx.user_profile.data_len != 0 {
        return Err(InstructionError::AccountAlreadyInUse);
    }
    if ctx.user_profile.lamports != 0 && ctx.authority.key == ctx.user_profile.key {
        return Err(InstructionError::TryingToInitPayerAsProgramAccount);
    }
    let required = if rent_exempt_minimum > ctx.user_profile.lamports {
        rent_exempt_minimum - ctx.user_profile.lamports
    } else {
        0
    };
    if ctx.authority.lamports < required {
        return Err(InstructionError::InsufficientFunds);
    }
    if ctx.user_profile.data_len != 0 {
        return Err(InstructionError::AccountAlreadyInUse);
    }
    if target_admin != ctx.admin_profile.key {
        return Err(InstructionError::Bridge(BridgeError::AdminMismatch));
    }
    if !check_admin_seeds(&ctx.admin_profile.data.authority, &ctx.admin_profile.key) {
        return Err(InstructionError::ConstraintSeeds);
    }
    ctx.authority.lamports = ctx.authority.lamports - required;
    ctx.user_profile.lamports = ctx.user_profile.lamports + required;
    ctx.user_profile.data_len = 8 + USER_PROFILE_RECORD_SIZE;
    ctx.user_profile.data = UserProfile {
        authority: ctx.authority.key,
        communication_pubkey,
        admin_profile_on_creation: target_admin,
        deposit_balance: 0,
    };
    Ok(UserProfileCreated { authority: ctx.authority.key, target_admin, communication_pubkey, ts })
}

/// Replaces the communication key of a user profile.
pub fn user_update_comm_key(ctx: &mut UserUpdateCommKey, new_key: Pubkey, ts: i64) -> (r: Result<
    UserCommKeyUpdated,
    InstructionError,
>)
    ensures
        final(ctx).user_profile.data_len == old(ctx).user_profile.data_len,
        match user_account_check(
            old(ctx).authority.key,
            old(ctx).user_profile,
            old(ctx).admin_profile.key,
        ) {
            Some(e) => r == Err::<UserCommKeyUpdated, InstructionError>(e) && final(ctx).user_profile
                == old(ctx).user_profile,
            None => {
                &&& r == Ok::<UserCommKeyUpdated, InstructionError>(
                    UserCommKeyUpdated { authority: old(ctx).authority.key, new_comm_pubkey: new_key, ts },
                )
                &&& final(ctx).user_profile.data == (UserProfile {
                    communication_pubkey: new_key,
                    ..old(ctx).user_profile.data
                })
                &&& final(ctx).user_profile.key == old(ctx).user_profile.key
                &&& final(ctx).user_profile.lamports == old(ctx).user_profile.lamports
            },
        },
        final(ctx).authority == old(ctx).authority,
        final(ctx).admin_profile == old(ctx).admin_profile,
{
    check_user_account(&ctx.authority.key, &ctx.user_profile, &ctx.admin_profile.key)?;
    ctx.user_profile.data.communication_pubkey = new_key;
    Ok(UserCommKeyUpdated { authority: ctx.authority.key, new_comm_pubkey: new_key, ts })
}

/// Closes a user profile: all of its lamports, deposit and rent alike, return
/// to the user's wallet, and its data is released.
pub fn user_close_profile(ctx: &mut UserCloseProfile, ts: i64) -> (r: Result<
    UserProfileClosed,
    InstructionError,
>)
    requires
        user_account_check(
            old(ctx).authority.key,
            old(ctx).user_profile,
            old(ctx).admin_profile.key,
        ) is None ==> old(ctx).authority.lamports + old(ctx).user_profile.lamports <= u64::MAX,
    ensures
        match user_account_check(
            old(ctx).authority.key,
            old(ctx).user_profile,
            old(ctx).admin_profile.key,
        ) {
            Some(e) => r == Err::<UserProfileClosed, InstructionError>(e) && final(ctx).user_profile
                == old(ctx).user_profile && final(ctx).authority == old(ctx).authority,
            None => {
                &&& r == Ok::<UserProfileClosed, InstructionError>(
                    UserProfileClosed { authority: old(ctx).authority.key, ts },
                )
                &&& final(ctx).user_profile.lamports == 0
                &&& final(ctx).user_profile.data_len == 0
                &&& final(ctx).user_profile.key == old(ctx).user_profile.key
                &&& final(ctx).authority.lamports == old(ctx).authority.lamports
                    + old(ctx).user_profile.lamports
                &&& final(ctx).authority.key == old(ctx).authority.key
            },
        },
        final(ctx).authority.lamports + final(ctx).user_profile.lamports == old(ctx).authority.lamports
            + old(ctx).user_profile.lamports,
        final(ctx).admin_profile == old(ctx).admin_profile,
{
    check_user_account(&ctx.authority.key, &ctx.user_profile, &ctx.admin_profile.key)?;
    ctx.authority.lamports = ctx.authority.lamports + ctx.user_profile.lamports;
    ctx.user_profile.lamports = 0;
    ctx.user_profile.data_len = 0;
    Ok(UserProfileClosed { authority: ctx.authority.key, ts })
}

/// The user profile after `amount` is added to its deposit.
pub open spec fn deposited(p: UserProfile, amount: u64) -> UserProfile {
    UserProfile { deposit_balance: (p.deposit_balance + amount) as u64, ..p }
}

/// The user profile after `amount` is taken from its deposit.
pub open spec fn withdrawn(p: UserProfile, amount: u64) -> UserProfile {
    UserProfile { deposit_balance: (p.deposit_balance - amount) as u64, ..p }
}

/// Withdrawing what was just deposited gives the profile back unchanged, and
/// the lamports moved by the two instructions cancel out.
pub proof fn lemma_withdraw_undoes_deposit(p: UserProfile, profile_lamports: u64, amount: u64)
    requires
        p.deposit_balance + amount <= u64::MAX,
        profile_lamports + amount <= u64::MAX,
    ensures
        withdrawn(deposited(p, amount), amount) == p,
        deposited(p, amount).deposit_balance >= amount,
        (profile_lamports + amount) - amount == profile_lamports,
{
}

/// Moves `amount` lamports from the user's wallet into its profile and credits
/// them to the deposit balance.
pub fn user_deposit(ctx: &mut UserDeposit, amount: u64, ts: i64) -> (r: Result<
    UserFundsDeposited,
    InstructionError,
>)
    requires
        user_account_check(
            old(ctx).authority.key,
            old(ctx).user_profile,
            old(ctx).admin_profile.key,
        ) is None && old(ctx).authority.lamports >= amount ==> old(ctx).user_profile.lamports
            + amount <= u64::MAX && old(ctx).user_profile.data.deposit_balance + amount <= u64::MAX,
    ensures
        final(ctx).user_profile.data_len == old(ctx).user_profile.data_len,
        match user_account_check(
            old(ctx).authority.key,
            old(ctx).user_profile,
            old(ctx).admin_profile.key,
        ) {
            Some(e) => r == Err::<UserFundsDeposited, InstructionError>(e),
            None => if old(ctx).authority.lamports < amount {
                r == Err::<UserFundsDeposited, InstructionError>(InstructionError::InsufficientFunds)
            } else {
                &&& r == Ok::<UserFundsDeposited, InstructionError>(
                    UserFundsDeposited {
                        authority: old(ctx).user_profile.data.authority,
                        amount,
                        new_deposit_balance: (old(ctx).user_profile.data.deposit_balance
                            + amount) as u64,
                        ts,
                    },
                )
                &&& final(ctx).authority.lamports == old(ctx).authority.lamports - amount
                &&& final(ctx).user_profile.lamports == old(ctx).user_profile.lamports + amount
                &&& final(ctx).user_profile.data == deposited(old(ctx).user_profile.data, amount)
            },
        },
        r is Err ==> final(ctx).user_profile == old(ctx).user_profile && final(ctx).authority == old(
            ctx,
        ).authority,
        final(ctx).authority.key == old(ctx).authority.key,
        final(ctx).user_profile.key == old(ctx).user_profile.key,
        final(ctx).authority.lamports + final(ctx).user_profile.lamports == old(ctx).authority.lamports
            + old(ctx).user_profile.lamports,
        final(ctx).admin_profile == old(ctx).admin_profile,
{
    check_user_account(&ctx.authority.key, &ctx.user_profile, &ctx.admin_profile.key)?;
    if ctx.authority.lamports < amount {
        return Err(InstructionError::InsufficientFunds);
    }
    ctx.authority.lamports = ctx.authority.lamports - amount;
    ctx.user_profile.lamports = ctx.user_profile.lamports + amount;
    ctx.user_profile.data.deposit_balance = ctx.user_profile.data.deposit_balance + amount;
    Ok(
        UserFundsDeposited {
            authority: ctx.user_profile.data.authority,
            amount,
            new_deposit_balance: ctx.user_profile.data.deposit_balance,
            ts,
        },
    )
}

/// Withdraws `amount` of the user's unspent deposit to `destination`.
pub fn user_withdraw(
    ctx: &mut UserWithdraw,
    amount: u64,
    rent_exempt_minimum: u64,
    ts: i64,
) -> (r: Result<UserFundsWithdrawn, InstructionError>)
    requires
        old(ctx).destination.key != old(ctx).user_profile.key,
        user_account_check(
            old(ctx).authority.key,
            old(ctx).user_profile,
            old(ctx).admin_profile.key,
        ) is None && old(ctx).user_profile.data.deposit_balance >= amount
            ==> old(ctx).user_profile.lamports >= amount,
        user_account_check(
            old(ctx).authority.key,
            old(ctx).user_profile,
            old(ctx).admin_profile.key,
        ) is None && withdraw_moves_lamports(
            old(ctx).user_profile.data.deposit_balance,
            old(ctx).user_profile.lamports,
            amount,
            rent_exempt_minimum,
        ) ==> old(ctx).destination.lamports + amount <= u64::MAX,
    ensures
        final(ctx).user_profile.data_len == old(ctx).user_profile.data_len,
        ({
            let pre = old(ctx).user_profile;
            match user_account_check(old(ctx).authority.key, pre, old(ctx).admin_profile.key) {
                Some(e) => r == Err::<UserFundsWithdrawn, InstructionError>(e),
                None => if pre.data.deposit_balance < amount {
                    r == Err::<UserFundsWithdrawn, InstructionError>(
                        InstructionError::Bridge(BridgeError::InsufficientDepositBalance),
                    )
                } else if pre.lamports - amount < rent_exempt_minimum {
                    r == Err::<UserFundsWithdrawn, InstructionError>(
                        InstructionError::Bridge(BridgeError::RentExemptViolation),
                    )
                } else {
                    r == Ok::<UserFundsWithdrawn, InstructionError>(
                        UserFundsWithdrawn {
                            authority: pre.data.authority,
                            amount,
                            destination: old(ctx).destination.key,
                            new_deposit_balance: (pre.data.deposit_balance - amount) as u64,
                            ts,
                        },
                    )
                },
            }
        }),
        r is Err ==> final(ctx).user_profile == old(ctx).user_profile && final(ctx).destination == old(
            ctx,
        ).destination,
        r is Ok ==> {
            &&& final(ctx).user_profile.data == withdrawn(old(ctx).user_profile.data, amount)
            &&& final(ctx).user_profile.lamports == old(ctx).user_profile.lamports - amount
            &&& final(ctx).destination.lamports == old(ctx).destination.lamports + amount
            &&& final(ctx).user_profile.lamports >= rent_exempt_minimum
            &&& final(ctx).user_profile.key == old(ctx).user_profile.key
            &&& final(ctx).destination.key == old(ctx).destination.key
        },
        final(ctx).authority == old(ctx).authority,
        final(ctx).admin_profile == old(ctx).admin_profile,
        final(ctx).user_profile.lamports + final(ctx).destination.lamports
            == old(ctx).user_profile.lamports + old(ctx).destination.lamports,
{
    check_user_account(&ctx.authority.key, &ctx.user_profile, &ctx.admin_profile.key)?;
    if ctx.user_profile.data.deposit_balance < amount {
        return Err(InstructionError::Bridge(BridgeError::InsufficientDepositBalance));
    }
    if ctx.user_profile.lamports - amount < rent_exempt_minimum {
        return Err(InstructionError::Bridge(BridgeError::RentExemptViolation));
    }
    ctx.user_profile.lamports = ctx.user_profile.lamports - amount;
    ctx.destination.lamports = ctx.destination.lamports + amount;
    ctx.user_profile.data.deposit_balance = ctx.user_profile.data.deposit_balance - amount;
    Ok(
        UserFundsWithdrawn {
            authority: ctx.user_profile.data.authority,
            amount,
            destination: ctx.destination.key,
            new_deposit_balance: ctx.user_profile.data.deposit_balance,
            ts,
        },
    )
}

// --- Operational instructions ---

/// The payment of a paid command gets as far as moving lamports.
pub open spec fn dispatch_moves_lamports(
    deposit: u64,
    lamports: u64,
    price: u64,
    rent_exempt_minimum: u64,
) -> bool {
    price > 0 && withdraw_moves_lamports(deposit, lamports, price, rent_exempt_minimum)
}

/// A user calls a command of an admin service. If the command has a price in
/// the admin's price list, the price moves from the user's profile (deposit and
/// lamports) to the admin's profile (balance and lamports).
pub fn user_dispatch_command(
    ctx: &mut UserDispatchCommand,
    command_id: u16,
    payload: Vec<u8>,
    rent_exempt_minimum: u64,
    ts: i64,
) -> (r: Result<UserCommandDispatched, InstructionError>)
    requires
        old(ctx).admin_profile.data.wf(),
        old(ctx).admin_profile.key != old(ctx).user_profile.key,
        ({
            let price = price_of(old(ctx).admin_profile.data.prices@, command_id);
            user_account_check(
            old(ctx).authority.key,
            old(ctx).user_profile,
            old(ctx).admin_profile.key,
        ) is None && payload@.len() <= MAX_PAYLOAD_SIZE && price > 0 && old(
                ctx,
            ).user_profile.data.deposit_balance >= price ==> old(ctx).user_profile.lamports >= price
        }),
        ({
            let price = price_of(old(ctx).admin_profile.data.prices@, command_id);
            user_account_check(
            old(ctx).authority.key,
            old(ctx).user_profile,
            old(ctx).admin_profile.key,
        ) is None && payload@.len() <= MAX_PAYLOAD_SIZE && dispatch_moves_lamports(
                old(ctx).user_profile.data.deposit_balance,
                old(ctx).user_profile.lamports,
                price,
                rent_exempt_minimum,
            ) ==> old(ctx).admin_profile.lamports + price <= u64::MAX && old(
                ctx,
            ).admin_profile.data.balance + price <= u64::MAX
        }),
    ensures
        final(ctx).user_profile.data_len == old(ctx).user_profile.data_len,
        final(ctx).admin_profile.data_len == old(ctx).admin_profile.data_len,
        ({
            let pre_user = old(ctx).user_profile;
            let price = price_of(old(ctx).admin_profile.data.prices@, command_id);
            match user_account_check(old(ctx).authority.key, pre_user, old(ctx).admin_profile.key) {
                Some(e) => r == Err::<UserCommandDispatched, InstructionError>(e),
                None => if !admin_seeds_ok(
                    old(ctx).admin_profile.data.authority,
                    old(ctx).admin_profile.key,
                ) {
                    r == Err::<UserCommandDispatched, InstructionError>(InstructionError::ConstraintSeeds)
                } else if payload@.len() > MAX_PAYLOAD_SIZE {
                    r == Err::<UserCommandDispatched, InstructionError>(
                        InstructionError::Bridge(BridgeError::PayloadTooLarge),
                    )
                } else if price > 0 && pre_user.data.deposit_balance < price {
                    r == Err::<UserCommandDispatched, InstructionError>(
                        InstructionError::Bridge(BridgeError::InsufficientDepositBalance),
                    )
                } else if price > 0 && pre_user.lamports - price < rent_exempt_minimum {
                    r == Err::<UserCommandDispatched, InstructionError>(
                        InstructionError::Bridge(BridgeError::RentExemptViolation),
                    )
                } else {
                    &&& r is Ok
                    &&& r->Ok_0.sender == old(ctx).authority.key
                    &&& r->Ok_0.target_admin_authority == old(ctx).admin_profile.data.authority
                    &&& r->Ok_0.command_id == command_id
                    &&& r->Ok_0.price_paid == price
                    &&& r->Ok_0.payload@ == payload@
                    &&& r->Ok_0.ts == ts
                    &&& final(ctx).user_profile.data.deposit_balance
                        == pre_user.data.deposit_balance - price
                    &&& final(ctx).user_profile.lamports == pre_user.lamports - price
                    &&& final(ctx).admin_profile.data.balance == old(ctx).admin_profile.data.balance
                        + price
                    &&& final(ctx).admin_profile.lamports == old(ctx).admin_profile.lamports + price
                },
            }
        }),
        r is Err ==> final(ctx).user_profile == old(ctx).user_profile && final(ctx).admin_profile
            == old(ctx).admin_profile,
        final(ctx).authority == old(ctx).authority,
        final(ctx).user_profile.key == old(ctx).user_profile.key,
        final(ctx).admin_profile.key == old(ctx).admin_profile.key,
        final(ctx).user_profile.data.authority == old(ctx).user_profile.data.authority,
        final(ctx).user_profile.data.communication_pubkey == old(
            ctx,
        ).user_profile.data.communication_pubkey,
        final(ctx).user_profile.data.admin_profile_on_creation == old(
            ctx,
        ).user_profile.data.admin_profile_on_creation,
        final(ctx).admin_profile.data.authority == old(ctx).admin_profile.data.authority,
        final(ctx).admin_profile.data.communication_pubkey == old(
            ctx,
        ).admin_profile.data.communication_pubkey,
        final(ctx).admin_profile.data.prices@ == old(ctx).admin_profile.data.prices@,
        final(ctx).admin_profile.data.wf(),
        // the price moves from the user to the admin: nothing is created or lost
        final(ctx).user_profile.lamports + final(ctx).admin_profile.lamports
            == old(ctx).user_profile.lamports + old(ctx).admin_profile.lamports,
        final(ctx).user_profile.data.deposit_balance + final(ctx).admin_profile.data.balance
            == old(ctx).user_profile.data.deposit_balance + old(ctx).admin_profile.data.balance,
{
    check_user_account(&ctx.authority.key, &ctx.user_profile, &ctx.admin_profile.key)?;
    if !check_admin_seeds(&ctx.admin_profile.data.authority, &ctx.admin_profile.key) {
        return Err(InstructionError::ConstraintSeeds);
    }
    if payload.len() > MAX_PAYLOAD_SIZE {
        return Err(InstructionError::Bridge(BridgeError::PayloadTooLarge));
    }
    let command_price = lookup_price(&ctx.admin_profile.data.prices, command_id);
    if command_price > 0 {
        if ctx.user_profile.data.deposit_balance < command_price {
            return Err(InstructionError::Bridge(BridgeError::InsufficientDepositBalance));
        }
        if ctx.user_profile.lamports - command_price < rent_exempt_minimum {
            return Err(InstructionError::Bridge(BridgeError::RentExemptViolation));
        }
        ctx.user_profile.lamports = ctx.user_profile.lamports - command_price;
        ctx.admin_profile.lamports = ctx.admin_profile.lamports + command_price;
        ctx.user_profile.data.deposit_balance = ctx.user_profile.data.deposit_balance
            - command_price;
        ctx.admin_profile.data.balance = ctx.admin_profile.data.balance + command_price;
    }
    Ok(
        UserCommandDispatched {
            sender: ctx.authority.key,
            target_admin_authority: ctx.admin_profile.data.authority,
            command_id,
            price_paid: command_price,
            payload,
            ts,
        },
    )
}

/// Logs an off-chain action of a user-admin relationship. Either party may
/// sign. The user profile must live at the address derived from its own
/// authority and the admin profile, and the admin profile at the address
/// derived from its own authority.
pub fn log_action(ctx: &LogAction, session_id: u64, action_code: u16, ts: i64) -> (r: Result<
    OffChainActionLogged,
    InstructionError,
>)
    ensures
        if !user_seeds_ok(
            ctx.user_profile.data.authority,
            ctx.admin_profile.key,
            ctx.user_profile.key,
        ) {
            r == Err::<OffChainActionLogged, InstructionError>(InstructionError::ConstraintSeeds)
        } else if ctx.user_profile.data.admin_profile_on_creation != ctx.admin_profile.key {
            r == Err::<OffChainActionLogged, InstructionError>(
                InstructionError::Bridge(BridgeError::AdminMismatch),
            )
        } else if ctx.user_profile.data.authority != ctx.authority.key
            && ctx.admin_profile.data.authority != ctx.authority.key {
            r == Err::<OffChainActionLogged, InstructionError>(
                InstructionError::Bridge(BridgeError::SignerUnauthorized),
            )
        } else if !admin_seeds_ok(ctx.admin_profile.data.authority, ctx.admin_profile.key) {
            r == Err::<OffChainActionLogged, InstructionError>(InstructionError::ConstraintSeeds)
        } else {
            r == Ok::<OffChainActionLogged, InstructionError>(
                OffChainActionLogged { actor: ctx.authority.key, session_id, action_code, ts },
            )
        },
{
    if !check_user_seeds(
        &ctx.user_profile.data.authority,
        &ctx.admin_profile.key,
        &ctx.user_profile.key,
    ) {
        return Err(InstructionError::ConstraintSeeds);
    }
    if ctx.user_profile.data.admin_profile_on_creation != ctx.admin_profile.key {
        return Err(InstructionError::Bridge(BridgeError::AdminMismatch));
    }
    if ctx.user_profile.data.authority != ctx.authority.key && ctx.admin_profile.data.authority
        != ctx.authority.key {
        return Err(InstructionError::Bridge(BridgeError::SignerUnauthorized));
    }
    if !check_admin_seeds(&ctx.admin_profile.data.authority, &ctx.admin_profile.key) {
        return Err(InstructionError::ConstraintSeeds);
    }
    Ok(OffChainActionLogged { actor: ctx.authority.key, session_id, action_code, ts })
}

} // verus!
