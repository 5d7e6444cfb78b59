//! Instructions for the bridge program, prepared for remote signing.
//!
//! Each `prepare_*` function computes the instruction a transaction carries:
//! the program id, the accounts with their signer and writable flags, and the
//! instruction data, which is the 8-byte discriminator (the first 8 bytes of
//! the SHA-256 digest of `global:<instruction name>`) followed by the
//! arguments. The caller wraps it in a transaction paid by the authority with
//! a recent blockhash. Building fails only when a profile address the
//! instruction needs cannot be derived.
use vstd::prelude::*;
use vstd::string::StringSliceAdditionalSpecFns;
use crate::pubkey::Pubkey;
use crate::program::state::PriceEntry;
use crate::codec::{FieldData, FieldValue, enc_fields, fields_encodable, fields_view, write_fields};
use crate::runtime::{sha256, spec_sha256};
use crate::program::instructions::{admin_seeds_ok, user_seeds_ok};
use crate::connector::pda::{admin_pda, program_id, spec_admin_pda, spec_program_id, spec_user_pda, user_pda};

verus! {

/// An account an instruction reads or writes.
#[derive(Clone, Copy, Debug, PartialEq, Eq, Structural)]
pub struct AccountMetaPlan {
    pub pubkey: Pubkey,
    pub is_signer: bool,
    pub is_writable: bool,
}

/// An instruction of the bridge program.
#[derive(Clone, Debug)]
pub struct InstructionPlan {
    pub program_id: Pubkey,
    pub accounts: Vec<AccountMetaPlan>,
    pub data: Vec<u8>,
}

/// Why an instruction could not be prepared.
#[derive(Clone, Copy, Debug, PartialEq, Eq, Structural)]
pub enum BuildError {
    /// No bump seed gives a profile address for the keys.
    AddressNotDerivable,
}

/// The instructions of the bridge program.
#[derive(Clone, Copy, Debug, PartialEq, Eq, Structural)]
pub enum InstructionKind {
    AdminRegisterProfile,
    AdminUpdateCommKey,
    AdminUpdatePrices,
    AdminWithdraw,
    AdminCloseProfile,
    AdminDispatchCommand,
    UserCreateProfile,
    UserUpdateCommKey,
    UserDeposit,
    UserWithdraw,
    UserCloseProfile,
    UserDispatchCommand,
    LogAction,
}

/// The text the discriminator of an instruction is the digest of.
pub open spec fn instruction_label(k: InstructionKind) -> &'static str {
    match k {
        InstructionKind::AdminRegisterProfile => "global:admin_register_profile",
        InstructionKind::AdminUpdateCommKey => "global:admin_update_comm_key",
        InstructionKind::AdminUpdatePrices => "global:admin_update_prices",
        InstructionKind::AdminWithdraw => "global:admin_withdraw",
        InstructionKind::AdminCloseProfile => "global:admin_close_profile",
        InstructionKind::AdminDispatchCommand => "global:admin_dispatch_command",
        InstructionKind::UserCreateProfile => "global:user_create_profile",
        InstructionKind::UserUpdateCommKey => "global:user_update_comm_key",
        InstructionKind::UserDeposit => "global:user_deposit",
        InstructionKind::UserWithdraw => "global:user_withdraw",
        InstructionKind::UserCloseProfile => "global:user_close_profile",
        InstructionKind::UserDispatchCommand => "global:user_dispatch_command",
        InstructionKind::LogAction => "global:log_action",
    }
}

/// The text the discriminator of an instruction is the digest of.
pub fn instruction_label_of(k: InstructionKind) -> (r: &'static str)
    ensures
        r == instruction_label(k),
{
    match k {
        InstructionKind::AdminRegisterProfile => "global:admin_register_profile",
        InstructionKind::AdminUpdateCommKey => "global:admin_update_comm_key",
        InstructionKind::AdminUpdatePrices => "global:admin_update_prices",
        InstructionKind::AdminWithdraw => "global:admin_withdraw",
        InstructionKind::AdminCloseProfile => "global:admin_close_profile",
        InstructionKind::AdminDispatchCommand => "global:admin_dispatch_command",
        InstructionKind::UserCreateProfile => "global:user_create_profile",
        InstructionKind::UserUpdateCommKey => "global:user_update_comm_key",
        InstructionKind::UserDeposit => "global:user_deposit",
        InstructionKind::UserWithdraw => "global:user_withdraw",
        InstructionKind::UserCloseProfile => "global:user_close_profile",
        InstructionKind::UserDispatchCommand => "global:user_dispatch_command",
        InstructionKind::LogAction => "global:log_action",
    }
}

/// The discriminator of an instruction.
pub open spec fn instruction_discriminator(k: InstructionKind) -> Seq<u8> {
    spec_sha256(instruction_label(k).spec_bytes()).take(8)
}

/// The data of an instruction: its discriminator and its arguments.
pub open spec fn instruction_data(k: InstructionKind, args: Seq<FieldData>) -> Seq<u8> {
    instruction_discriminator(k) + enc_fields(args)
}

/// The data of an instruction.
pub fn encode_instruction(k: InstructionKind, args: &Vec<FieldValue>) -> (r: Vec<u8>)
    requires
        fields_encodable(fields_view(args@)),
    ensures
        r@ == instruction_data(k, fields_view(args@)),
{
    let label = instruction_label_of(k);
    let digest = sha256(label.as_bytes());
    let mut r: Vec<u8> = Vec::new();
    let mut i: usize = 0;
    while i < 8
        invariant
            i <= 8,
            digest@.len() == 32,
            r@ == digest@.take(i as int),
        decreases 8 - i,
    {
        r.push(digest[i]);
        assert(r@ =~= digest@.take(i + 1));
        i = i + 1;
    }
    let mut body = write_fields(args);
    r.append(&mut body);
    r
}

/// An account entry.
pub open spec fn meta(pubkey: Pubkey, is_signer: bool, is_writable: bool) -> AccountMetaPlan {
    AccountMetaPlan { pubkey, is_signer, is_writable }
}

/// The system program's address (all zero bytes).
pub open spec fn system_program_id() -> Pubkey {
    Pubkey { k0: 0, k1: 0, k2: 0, k3: 0 }
}

/// The accounts and arguments of an instruction.
pub type InstructionContent = (Seq<AccountMetaPlan>, Seq<FieldData>);

/// `r` is the instruction of kind `k` with the accounts and arguments.
pub open spec fn is_instruction(r: InstructionPlan, k: InstructionKind, c: InstructionContent) -> bool {
    &&& r.program_id == spec_program_id()
    &&& r.accounts@ == c.0
    &&& r.data@ == instruction_data(k, c.1)
}

/// `r` is what preparing an instruction of kind `k` gives when `s` describes
/// its content, or the error `s` names.
pub open spec fn prepared_as(
    r: Result<InstructionPlan, BuildError>,
    k: InstructionKind,
    s: Result<InstructionContent, BuildError>,
) -> bool {
    match s {
        Ok(c) => r is Ok && is_instruction(r->Ok_0, k, c),
        Err(e) => r == Err::<InstructionPlan, BuildError>(e),
    }
}

/// The instruction described by `c`.
fn plan(k: InstructionKind, accounts: Vec<AccountMetaPlan>, args: Vec<FieldValue>, c: Ghost<InstructionContent>) -> (r: InstructionPlan)
    requires
        accounts@ == c@.0,
        fields_view(args@) == c@.1,
        fields_encodable(c@.1),
    ensures
        is_instruction(r, k, c@),
{
    let data = encode_instruction(k, &args);
    InstructionPlan { program_id: program_id(), accounts, data }
}

/// The content of `admin_register_profile`.
pub open spec fn spec_prepare_admin_register_profile(authority: Pubkey, communication_pubkey: Pubkey) -> Result<InstructionContent, BuildError> {
    match spec_admin_pda(authority) {
        Some(pda) => Ok((seq![meta(authority, true, true), meta(pda, false, true), meta(system_program_id(), false, false)], seq![FieldData::Key(communication_pubkey)])),
        None => Err(BuildError::AddressNotDerivable),
    }
}

/// Prepares `admin_register_profile`.
pub fn prepare_admin_register_profile(authority: Pubkey, communication_pubkey: Pubkey) -> (r: Result<InstructionPlan, BuildError>)
    ensures
        prepared_as(r, InstructionKind::AdminRegisterProfile, spec_prepare_admin_register_profile(authority, communication_pubkey)),
{
    let pda = match admin_pda(&authority) {
        Some(p) => p,
        None => return Err(BuildError::AddressNotDerivable),
    };
    let ghost content: InstructionContent = (seq![meta(authority, true, true), meta(pda, false, true), meta(system_program_id(), false, false)], seq![FieldData::Key(communication_pubkey)]);
    let accounts: Vec<AccountMetaPlan> = vec![
        AccountMetaPlan { pubkey: authority, is_signer: true, is_writable: true },
        AccountMetaPlan { pubkey: pda, is_signer: false, is_writable: true },
        AccountMetaPlan { pubkey: Pubkey { k0: 0, k1: 0, k2: 0, k3: 0 }, is_signer: false, is_writable: false },
    ];
    let args: Vec<FieldValue> = vec![FieldValue::Key(communication_pubkey)];
    assert(accounts@ =~= content.0);
    assert(fields_view(args@) =~= content.1);
    Ok(plan(InstructionKind::AdminRegisterProfile, accounts, args, Ghost(content)))
}

/// The content of `admin_update_comm_key`.
pub open spec fn spec_prepare_admin_update_comm_key(authority: Pubkey, new_key: Pubkey) -> Result<InstructionContent, BuildError> {
    match spec_admin_pda(authority) {
        Some(pda) => Ok((seq![meta(authority, true, true), meta(pda, false, true)], seq![FieldData::Key(new_key)])),
        None => Err(BuildError::AddressNotDerivable),
    }
}

/// Prepares `admin_update_comm_key`.
pub fn prepare_admin_update_comm_key(authority: Pubkey, new_key: Pubkey) -> (r: Result<InstructionPlan, BuildError>)
    ensures
        prepared_as(r, InstructionKind::AdminUpdateCommKey, spec_prepare_admin_update_comm_key(authority, new_key)),
{
    let pda = match admin_pda(&authority) {
        Some(p) => p,
        None => return Err(BuildError::AddressNotDerivable),
    };
    let ghost content: InstructionContent = (seq![meta(authority, true, true), meta(pda, false, true)], seq![FieldData::Key(new_key)]);
    let accounts: Vec<AccountMetaPlan> = vec![
        AccountMetaPlan { pubkey: authority, is_signer: true, is_writable: true },
        AccountMetaPlan { pubkey: pda, is_signer: false, is_writable: true },
    ];
    let args: Vec<FieldValue> = vec![FieldValue::Key(new_key)];
    assert(accounts@ =~= content.0);
    assert(fields_view(args@) =~= content.1);
    Ok(plan(InstructionKind::AdminUpdateCommKey, accounts, args, Ghost(content)))
}

/// The content of `admin_update_prices`.
pub open spec fn spec_prepare_admin_update_prices(authority: Pubkey, new_prices: Seq<PriceEntry>) -> Result<InstructionContent, BuildError> {
    match spec_admin_pda(authority) {
        Some(pda) => Ok((seq![meta(authority, true, true), meta(pda, false, true), meta(system_program_id(), false, false)], seq![FieldData::Prices(new_prices)])),
        None => Err(BuildError::AddressNotDerivable),
    }
}

/// Prepares `admin_update_prices`.
pub fn prepare_admin_update_prices(authority: Pubkey, new_prices: Vec<PriceEntry>) -> (r: Result<InstructionPlan, BuildError>)
    requires
        new_prices@.len() <= u32::MAX,
    ensures
        prepared_as(r, InstructionKind::AdminUpdatePrices, spec_prepare_admin_update_prices(authority, new_prices@)),
{
    let pda = match admin_pda(&authority) {
        Some(p) => p,
        None => return Err(BuildError::AddressNotDerivable),
    };
    let ghost content: InstructionContent = (seq![meta(authority, true, true), meta(pda, false, true), meta(system_program_id(), false, false)], seq![FieldData::Prices(new_prices@)]);
    let accounts: Vec<AccountMetaPlan> = vec![
        AccountMetaPlan { pubkey: authority, is_signer: true, is_writable: true },
        AccountMetaPlan { pubkey: pda, is_signer: false, is_writable: true },
        AccountMetaPlan { pubkey: Pubkey { k0: 0, k1: 0, k2: 0, k3: 0 }, is_signer: false, is_writable: false },
    ];
    let args: Vec<FieldValue> = vec![FieldValue::Prices(new_prices)];
    assert(accounts@ =~= content.0);
    assert(fields_view(args@) =~= content.1);
    Ok(plan(InstructionKind::AdminUpdatePrices, accounts, args, Ghost(content)))
}

/// The content of `admin_withdraw`.
pub open spec fn spec_prepare_admin_withdraw(authority: Pubkey, amount: u64, destination: Pubkey) -> Result<InstructionContent, BuildError> {
    match spec_admin_pda(authority) {
        Some(pda) => Ok((seq![meta(authority, true, true), meta(pda, false, true), meta(destination, false, true), meta(system_program_id(), false, false)], seq![FieldData::U64(amount)])),
        None => Err(BuildError::AddressNotDerivable),
    }
}

/// Prepares `admin_withdraw`.
pub fn prepare_admin_withdraw(authority: Pubkey, amount: u64, destination: Pubkey) -> (r: Result<InstructionPlan, BuildError>)
    ensures
        prepared_as(r, InstructionKind::AdminWithdraw, spec_prepare_admin_withdraw(authority, amount, destination)),
{
    let pda = match admin_pda(&authority) {
        Some(p) => p,
        None => return Err(BuildError::AddressNotDerivable),
    };
    let ghost content: InstructionContent = (seq![meta(authority, true, true), meta(pda, false, true), meta(destination, false, true), meta(system_program_id(), false, false)], seq![FieldData::U64(amount)]);
    let accounts: Vec<AccountMetaPlan> = vec![
        AccountMetaPlan { pubkey: authority, is_signer: true, is_writable: true },
        AccountMetaPlan { pubkey: pda, is_signer: false, is_writable: true },
        AccountMetaPlan { pubkey: destination, is_signer: false, is_writable: true },
        AccountMetaPlan { pubkey: Pubkey { k0: 0, k1: 0, k2: 0, k3: 0 }, is_signer: false, is_writable: false },
    ];
    let args: Vec<FieldValue> = vec![FieldValue::U64(amount)];
    assert(accounts@ =~= content.0);
    assert(fields_view(args@) =~= content.1);
    Ok(plan(InstructionKind::AdminWithdraw, accounts, args, Ghost(content)))
}

/// The content of `admin_close_profile`.
pub open spec fn spec_prepare_admin_close_profile(authority: Pubkey) -> Result<InstructionContent, BuildError> {
    match spec_admin_pda(authority) {
        Some(pda) => Ok((seq![meta(authority, true, true), meta(pda, false, true)], Seq::<FieldData>::empty())),
        None => Err(BuildError::AddressNotDerivable),
    }
}

/// Prepares `admin_close_profile`.
pub fn prepare_admin_close_profile(authority: Pubkey) -> (r: Result<InstructionPlan, BuildError>)
    ensures
        prepared_as(r, InstructionKind::AdminCloseProfile, spec_prepare_admin_close_profile(authority)),
{
    let pda = match admin_pda(&authority) {
        Some(p) => p,
        None => return Err(BuildError::AddressNotDerivable),
    };
    let ghost content: InstructionContent = (seq![meta(authority, true, true), meta(pda, false, true)], Seq::<FieldData>::empty());
    let accounts: Vec<AccountMetaPlan> = vec![
        AccountMetaPlan { pubkey: authority, is_signer: true, is_writable: true },
        AccountMetaPlan { pubkey: pda, is_signer: false, is_writable: true },
    ];
    let args: Vec<FieldValue> = Vec::new();
    assert(accounts@ =~= content.0);
    assert(fields_view(args@) =~= content.1);
    Ok(plan(InstructionKind::AdminCloseProfile, accounts, args, Ghost(content)))
}

/// The content of `admin_dispatch_command`.
pub open spec fn spec_prepare_admin_dispatch_command(authority: Pubkey, target_user_profile_pda: Pubkey, command_id: u64, payload: Seq<u8>) -> Result<InstructionContent, BuildError> {
    match spec_admin_pda(authority) {
        Some(pda) => Ok((seq![meta(authority, true, false), meta(pda, false, false), meta(target_user_profile_pda, false, false)], seq![FieldData::U64(command_id), FieldData::Bytes(payload)])),
        None => Err(BuildError::AddressNotDerivable),
    }
}

/// Prepares `admin_dispatch_command`.
pub fn prepare_admin_dispatch_command(authority: Pubkey, target_user_profile_pda: Pubkey, command_id: u64, payload: Vec<u8>) -> (r: Result<InstructionPlan, BuildError>)
    requires
        payload@.len() <= u32::MAX,
    ensures
        prepared_as(r, InstructionKind::AdminDispatchCommand, spec_prepare_admin_dispatch_command(authority, target_user_profile_pda, command_id, payload@)),
{
    let pda = match admin_pda(&authority) {
        Some(p) => p,
        None => return Err(BuildError::AddressNotDerivable),
    };
    let ghost content: InstructionContent = (seq![meta(authority, true, false), meta(pda, false, false), meta(target_user_profile_pda, false, false)], seq![FieldData::U64(command_id), FieldData::Bytes(payload@)]);
    let accounts: Vec<AccountMetaPlan> = vec![
        AccountMetaPlan { pubkey: authority, is_signer: true, is_writable: false },
        AccountMetaPlan { pubkey: pda, is_signer: false, is_writable: false },
        AccountMetaPlan { pubkey: target_user_profile_pda, is_signer: false, is_writable: false },
    ];
    let args: Vec<FieldValue> = vec![FieldValue::U64(command_id), FieldValue::Bytes(payload)];
    assert(accounts@ =~= content.0);
    assert(fields_view(args@) =~= content.1);
    Ok(plan(InstructionKind::AdminDispatchCommand, accounts, args, Ghost(content)))
}

/// The content of `user_create_profile`.
pub open spec fn spec_prepare_user_create_profile(authority: Pubkey, target_admin_pda: Pubkey, communication_pubkey: Pubkey) -> Result<InstructionContent, BuildError> {
    match spec_user_pda(authority, target_admin_pda) {
        Some(pda) => Ok((seq![meta(authority, true, true), meta(pda, false, true), meta(system_program_id(), false, false)], seq![FieldData::Key(target_admin_pda), FieldData::Key(communication_pubkey)])),
        None => Err(BuildError::AddressNotDerivable),
    }
}

/// Prepares `user_create_profile`.
pub fn prepare_user_create_profile(authority: Pubkey, target_admin_pda: Pubkey, communication_pubkey: Pubkey) -> (r: Result<InstructionPlan, BuildError>)
    ensures
        prepared_as(r, InstructionKind::UserCreateProfile, spec_prepare_user_create_profile(authority, target_admin_pda, communication_pubkey)),
{
    let pda = match user_pda(&authority, &target_admin_pda) {
        Some(p) => p,
        None => return Err(BuildError::AddressNotDerivable),
    };
    let ghost content: InstructionContent = (seq![meta(authority, true, true), meta(pda, false, true), meta(system_program_id(), false, false)], seq![FieldData::Key(target_admin_pda), FieldData::Key(communication_pubkey)]);
    let accounts: Vec<AccountMetaPlan> = vec![
        AccountMetaPlan { pubkey: authority, is_signer: true, is_writable: true },
        AccountMetaPlan { pubkey: pda, is_signer: false, is_writable: true },
        AccountMetaPlan { pubkey: Pubkey { k0: 0, k1: 0, k2: 0, k3: 0 }, is_signer: false, is_writable: false },
    ];
    let args: Vec<FieldValue> = vec![FieldValue::Key(target_admin_pda), FieldValue::Key(communication_pubkey)];
    assert(accounts@ =~= content.0);
    assert(fields_view(args@) =~= content.1);
    Ok(plan(InstructionKind::UserCreateProfile, accounts, args, Ghost(content)))
}

/// The content of `user_update_comm_key`.
pub open spec fn spec_prepare_user_update_comm_key(authority: Pubkey, admin_profile_pda: Pubkey, new_key: Pubkey) -> Result<InstructionContent, BuildError> {
    match spec_user_pda(authority, admin_profile_pda) {
        Some(pda) => Ok((seq![meta(authority, true, true), meta(pda, false, true), meta(admin_profile_pda, false, false)], seq![FieldData::Key(new_key)])),
        None => Err(BuildError::AddressNotDerivable),
    }
}

/// Prepares `user_update_comm_key`.
pub fn prepare_user_update_comm_key(authority: Pubkey, admin_profile_pda: Pubkey, new_key: Pubkey) -> (r: Result<InstructionPlan, BuildError>)
    ensures
        prepared_as(r, InstructionKind::UserUpdateCommKey, spec_prepare_user_update_comm_key(authority, admin_profile_pda, new_key)),
{
    let pda = match user_pda(&authority, &admin_profile_pda) {
        Some(p) => p,
        None => return Err(BuildError::AddressNotDerivable),
    };
    let ghost content: InstructionContent = (seq![meta(authority, true, true), meta(pda, false, true), meta(admin_profile_pda, false, false)], seq![FieldData::Key(new_key)]);
    let accounts: Vec<AccountMetaPlan> = vec![
        AccountMetaPlan { pubkey: authority, is_signer: true, is_writable: true },
        AccountMetaPlan { pubkey: pda, is_signer: false, is_writable: true },
        AccountMetaPlan { pubkey: admin_profile_pda, is_signer: false, is_writable: false },
    ];
    let args: Vec<FieldValue> = vec![FieldValue::Key(new_key)];
    assert(accounts@ =~= content.0);
    assert(fields_view(args@) =~= content.1);
    Ok(plan(InstructionKind::UserUpdateCommKey, accounts, args, Ghost(content)))
}

/// The content of `user_deposit`.
pub open spec fn spec_prepare_user_deposit(authority: Pubkey, admin_profile_pda: Pubkey, amount: u64) -> Result<InstructionContent, BuildError> {
    match spec_user_pda(authority, admin_profile_pda) {
        Some(pda) => Ok((seq![meta(authority, true, true), meta(pda, false, true), meta(admin_profile_pda, false, false), meta(system_program_id(), false, false)], seq![FieldData::U64(amount)])),
        None => Err(BuildError::AddressNotDerivable),
    }
}

/// Prepares `user_deposit`.
pub fn prepare_user_deposit(authority: Pubkey, admin_profile_pda: Pubkey, amount: u64) -> (r: Result<InstructionPlan, BuildError>)
    ensures
        prepared_as(r, InstructionKind::UserDeposit, spec_prepare_user_deposit(authority, admin_profile_pda, amount)),
{
    let pda = match user_pda(&authority, &admin_profile_pda) {
        Some(p) => p,
        None => return Err(BuildError::AddressNotDerivable),
    };
    let ghost content: InstructionContent = (seq![meta(authority, true, true), meta(pda, false, true), meta(admin_profile_pda, false, false), meta(system_program_id(), false, false)], seq![FieldData::U64(amount)]);
    let accounts: Vec<AccountMetaPlan> = vec![
        AccountMetaPlan { pubkey: authority, is_signer: true, is_writable: true },
        AccountMetaPlan { pubkey: pda, is_signer: false, is_writable: true },
        AccountMetaPlan { pubkey: admin_profile_pda, is_signer: false, is_writable: false },
        AccountMetaPlan { pubkey: Pubkey { k0: 0, k1: 0, k2: 0, k3: 0 }, is_signer: false, is_writable: false },
    ];
    let args: Vec<FieldValue> = vec![FieldValue::U64(amount)];
    assert(accounts@ =~= content.0);
    assert(fields_view(args@) =~= content.1);
    Ok(plan(InstructionKind::UserDeposit, accounts, args, Ghost(content)))
}

/// The content of `user_withdraw`.
pub open spec fn spec_prepare_user_withdraw(authority: Pubkey, admin_profile_pda: Pubkey, amount: u64, destination: Pubkey) -> Result<InstructionContent, BuildError> {
    match spec_user_pda(authority, admin_profile_pda) {
        Some(pda) => Ok((seq![meta(authority, true, true), meta(pda, false, true), meta(admin_profile_pda, false, false), meta(destination, false, true), meta(system_program_id(), false, false)], seq![FieldData::U64(amount)])),
        None => Err(BuildError::AddressNotDerivable),
    }
}

/// Prepares `user_withdraw`.
pub fn prepare_user_withdraw(authority: Pubkey, admin_profile_pda: Pubkey, amount: u64, destination: Pubkey) -> (r: Result<InstructionPlan, BuildError>)
    ensures
        prepared_as(r, InstructionKind::UserWithdraw, spec_prepare_user_withdraw(authority, admin_profile_pda, amount, destination)),
{
    let pda = match user_pda(&authority, &admin_profile_pda) {
        Some(p) => p,
        None => return Err(BuildError::AddressNotDerivable),
    };
    let ghost content: InstructionContent = (seq![meta(authority, true, true), meta(pda, false, true), meta(admin_profile_pda, false, false), meta(destination, false, true), meta(system_program_id(), false, false)], seq![FieldData::U64(amount)]);
    let accounts: Vec<AccountMetaPlan> = vec![
        AccountMetaPlan { pubkey: authority, is_signer: true, is_writable: true },
        AccountMetaPlan { pubkey: pda, is_signer: false, is_writable: true },
        AccountMetaPlan { pubkey: admin_profile_pda, is_signer: false, is_writable: false },
        AccountMetaPlan { pubkey: destination, is_signer: false, is_writable: true },
        AccountMetaPlan { pubkey: Pubkey { k0: 0, k1: 0, k2: 0, k3: 0 }, is_signer: false, is_writable: false },
    ];
    let args: Vec<FieldValue> = vec![FieldValue::U64(amount)];
    assert(accounts@ =~= content.0);
    assert(fields_view(args@) =~= content.1);
    Ok(plan(InstructionKind::UserWithdraw, accounts, args, Ghost(content)))
}

/// The content of `user_close_profile`.
pub open spec fn spec_prepare_user_close_profile(authority: Pubkey, admin_profile_pda: Pubkey) -> Result<InstructionContent, BuildError> {
    match spec_user_pda(authority, admin_profile_pda) {
        Some(pda) => Ok((seq![meta(authority, true, true), meta(pda, false, true), meta(admin_profile_pda, false, false)], Seq::<FieldData>::empty())),
        None => Err(BuildError::AddressNotDerivable),
    }
}

/// Prepares `user_close_profile`.
pub fn prepare_user_close_profile(authority: Pubkey, admin_profile_pda: Pubkey) -> (r: Result<InstructionPlan, BuildError>)
    ensures
        prepared_as(r, InstructionKind::UserCloseProfile, spec_prepare_user_close_profile(authority, admin_profile_pda)),
{
    let pda = match user_pda(&authority, &admin_profile_pda) {
        Some(p) => p,
        None => return Err(BuildError::AddressNotDerivable),
    };
    let ghost content: InstructionContent = (seq![meta(authority, true, true), meta(pda, false, true), meta(admin_profile_pda, false, false)], Seq::<FieldData>::empty());
    let accounts: Vec<AccountMetaPlan> = vec![
        AccountMetaPlan { pubkey: authority, is_signer: true, is_writable: true },
        AccountMetaPlan { pubkey: pda, is_signer: false, is_writable: true },
        AccountMetaPlan { pubkey: admin_profile_pda, is_signer: false, is_writable: false },
    ];
    let args: Vec<FieldValue> = Vec::new();
    assert(accounts@ =~= content.0);
    assert(fields_view(args@) =~= content.1);
    Ok(plan(InstructionKind::UserCloseProfile, accounts, args, Ghost(content)))
}

/// The content of `user_dispatch_command`.
pub open spec fn spec_prepare_user_dispatch_command(authority: Pubkey, admin_profile_pda: Pubkey, command_id: u16, payload: Seq<u8>) -> Result<InstructionContent, BuildError> {
    match spec_user_pda(authority, admin_profile_pda) {
        Some(pda) => Ok((seq![meta(authority, true, false), meta(pda, false, true), meta(admin_profile_pda, false, true), meta(system_program_id(), false, false)], seq![FieldData::U16(command_id), FieldData::Bytes(payload)])),
        None => Err(BuildError::AddressNotDerivable),
    }
}

/// Prepares `user_dispatch_command`.
pub fn prepare_user_dispatch_command(authority: Pubkey, admin_profile_pda: Pubkey, command_id: u16, payload: Vec<u8>) -> (r: Result<InstructionPlan, BuildError>)
    requires
        payload@.len() <= u32::MAX,
    ensures
        prepared_as(r, InstructionKind::UserDispatchCommand, spec_prepare_user_dispatch_command(authority, admin_profile_pda, command_id, payload@)),
{
    let pda = match user_pda(&authority, &admin_profile_pda) {
        Some(p) => p,
        None => return Err(BuildError::AddressNotDerivable),
    };
    let ghost content: InstructionContent = (seq![meta(authority, true, false), meta(pda, false, true), meta(admin_profile_pda, false, true), meta(system_program_id(), false, false)], seq![FieldData::U16(command_id), FieldData::Bytes(payload@)]);
    let accounts: Vec<AccountMetaPlan> = vec![
        AccountMetaPlan { pubkey: authority, is_signer: true, is_writable: false },
        AccountMetaPlan { pubkey: pda, is_signer: false, is_writable: true },
        AccountMetaPlan { pubkey: admin_profile_pda, is_signer: false, is_writable: true },
        AccountMetaPlan { pubkey: Pubkey { k0: 0, k1: 0, k2: 0, k3: 0 }, is_signer: false, is_writable: false },
    ];
    let args: Vec<FieldValue> = vec![FieldValue::U16(command_id), FieldValue::Bytes(payload)];
    assert(accounts@ =~= content.0);
    assert(fields_view(args@) =~= content.1);
    Ok(plan(InstructionKind::UserDispatchCommand, accounts, args, Ghost(content)))
}

/// The content of `log_action`.
pub open spec fn spec_prepare_log_action(authority: Pubkey, user_profile_pda: Pubkey, admin_profile_pda: Pubkey, session_id: u64, action_code: u16) -> Result<InstructionContent, BuildError> {
    Ok((seq![meta(authority, true, true), meta(user_profile_pda, false, true), meta(admin_profile_pda, false, true)], seq![FieldData::U64(session_id), FieldData::U16(action_code)]))
}

/// Prepares `log_action`.
pub fn prepare_log_action(authority: Pubkey, user_profile_pda: Pubkey, admin_profile_pda: Pubkey, session_id: u64, action_code: u16) -> (r: Result<InstructionPlan, BuildError>)
    ensures
        prepared_as(r, InstructionKind::LogAction, spec_prepare_log_action(authority, user_profile_pda, admin_profile_pda, session_id, action_code)),
{
    let ghost content: InstructionContent = (seq![meta(authority, true, true), meta(user_profile_pda, false, true), meta(admin_profile_pda, false, true)], seq![FieldData::U64(session_id), FieldData::U16(action_code)]);
    let accounts: Vec<AccountMetaPlan> = vec![
        AccountMetaPlan { pubkey: authority, is_signer: true, is_writable: true },
        AccountMetaPlan { pubkey: user_profile_pda, is_signer: false, is_writable: true },
        AccountMetaPlan { pubkey: admin_profile_pda, is_signer: false, is_writable: true },
    ];
    let args: Vec<FieldValue> = vec![FieldValue::U64(session_id), FieldValue::U16(action_code)];
    assert(accounts@ =~= content.0);
    assert(fields_view(args@) =~= content.1);
    Ok(plan(InstructionKind::LogAction, accounts, args, Ghost(content)))
}

/// The discriminator of each instruction is the one the framework gives the
/// program's handler of the same name: the first 8 bytes of the SHA-256
/// digest of `global:` followed by the handler's name.
pub proof fn lemma_instruction_discriminators_name_their_handlers()
    ensures
        instruction_discriminator(InstructionKind::AdminRegisterProfile) == spec_sha256("global:admin_register_profile".spec_bytes()).take(8),
        instruction_discriminator(InstructionKind::AdminUpdateCommKey) == spec_sha256("global:admin_update_comm_key".spec_bytes()).take(8),
        instruction_discriminator(InstructionKind::AdminUpdatePrices) == spec_sha256("global:admin_update_prices".spec_bytes()).take(8),
        instruction_discriminator(InstructionKind::AdminWithdraw) == spec_sha256("global:admin_withdraw".spec_bytes()).take(8),
        instruction_discriminator(InstructionKind::AdminCloseProfile) == spec_sha256("global:admin_close_profile".spec_bytes()).take(8),
        instruction_discriminator(InstructionKind::AdminDispatchCommand) == spec_sha256("global:admin_dispatch_command".spec_bytes()).take(8),
        instruction_discriminator(InstructionKind::UserCreateProfile) == spec_sha256("global:user_create_profile".spec_bytes()).take(8),
        instruction_discriminator(InstructionKind::UserUpdateCommKey) == spec_sha256("global:user_update_comm_key".spec_bytes()).take(8),
        instruction_discriminator(InstructionKind::UserDeposit) == spec_sha256("global:user_deposit".spec_bytes()).take(8),
        instruction_discriminator(InstructionKind::UserWithdraw) == spec_sha256("global:user_withdraw".spec_bytes()).take(8),
        instruction_discriminator(InstructionKind::UserCloseProfile) == spec_sha256("global:user_close_profile".spec_bytes()).take(8),
        instruction_discriminator(InstructionKind::UserDispatchCommand) == spec_sha256("global:user_dispatch_command".spec_bytes()).take(8),
        instruction_discriminator(InstructionKind::LogAction) == spec_sha256("global:log_action".spec_bytes()).take(8),
{
}

/// Every user instruction is prepared for the user's profile for the given
/// admin profile: it is built exactly when the address derived from
/// `["user", authority, admin_profile_pda]` exists, the authority comes
/// first and signs, and the second account is that address, writable, which
/// passes the program's seeds check on the user profile; the other accounts
/// and the arguments are those the instruction takes.
pub proof fn lemma_user_instructions_address_the_users_profile(
    authority: Pubkey,
    admin_profile_pda: Pubkey,
    communication_pubkey: Pubkey,
    new_key: Pubkey,
    amount: u64,
    destination: Pubkey,
    command_id: u16,
    payload: Seq<u8>,
)
    ensures
        spec_prepare_user_create_profile(authority, admin_profile_pda, communication_pubkey) is Ok <==> spec_user_pda(authority, admin_profile_pda) is Some,
        spec_prepare_user_create_profile(authority, admin_profile_pda, communication_pubkey) matches Ok(c) ==> {
            &&& c.0.len() == 3
                &&& c.0[0] == (AccountMetaPlan { pubkey: authority, is_signer: true, is_writable: true })
                &&& c.0[1] == (AccountMetaPlan { pubkey: spec_user_pda(authority, admin_profile_pda)->0, is_signer: false, is_writable: true })
                &&& c.0[2] == (AccountMetaPlan { pubkey: system_program_id(), is_signer: false, is_writable: false })
            &&& user_seeds_ok(authority, admin_profile_pda, c.0[1].pubkey)
            &&& c.1 == seq![FieldData::Key(admin_profile_pda), FieldData::Key(communication_pubkey)]
        },
        spec_prepare_user_update_comm_key(authority, admin_profile_pda, new_key) is Ok <==> spec_user_pda(authority, admin_profile_pda) is Some,
        spec_prepare_user_update_comm_key(authority, admin_profile_pda, new_key) matches Ok(c) ==> {
            &&& c.0.len() == 3
                &&& c.0[0] == (AccountMetaPlan { pubkey: authority, is_signer: true, is_writable: true })
                &&& c.0[1] == (AccountMetaPlan { pubkey: spec_user_pda(authority, admin_profile_pda)->0, is_signer: false, is_writable: true })
                &&& c.0[2] == (AccountMetaPlan { pubkey: admin_profile_pda, is_signer: false, is_writable: false })
            &&& user_seeds_ok(authority, admin_profile_pda, c.0[1].pubkey)
            &&& c.1 == seq![FieldData::Key(new_key)]
        },
        spec_prepare_user_deposit(authority, admin_profile_pda, amount) is Ok <==> spec_user_pda(authority, admin_profile_pda) is Some,
        spec_prepare_user_deposit(authority, admin_profile_pda, amount) matches Ok(c) ==> {
            &&& c.0.len() == 4
                &&& c.0[0] == (AccountMetaPlan { pubkey: authority, is_signer: true, is_writable: true })
                &&& c.0[1] == (AccountMetaPlan { pubkey: spec_user_pda(authority, admin_profile_pda)->0, is_signer: false, is_writable: true })
                &&& c.0[2] == (AccountMetaPlan { pubkey: admin_profile_pda, is_signer: false, is_writable: false })
                &&& c.0[3] == (AccountMetaPlan { pubkey: system_program_id(), is_signer: false, is_writable: false })
            &&& user_seeds_ok(authority, admin_profile_pda, c.0[1].pubkey)
            &&& c.1 == seq![FieldData::U64(amount)]
        },
        spec_prepare_user_withdraw(authority, admin_profile_pda, amount, destination) is Ok <==> spec_user_pda(authority, admin_profile_pda) is Some,
        spec_prepare_user_withdraw(authority, admin_profile_pda, amount, destination) matches Ok(c) ==> {
            &&& c.0.len() == 5
                &&& c.0[0] == (AccountMetaPlan { pubkey: authority, is_signer: true, is_writable: true })
                &&& c.0[1] == (AccountMetaPlan { pubkey: spec_user_pda(authority, admin_profile_pda)->0, is_signer: false, is_writable: true })
                &&& c.0[2] == (AccountMetaPlan { pubkey: admin_profile_pda, is_signer: false, is_writable: false })
                &&& c.0[3] == (AccountMetaPlan { pubkey: destination, is_signer: false, is_writable: true })
                &&& c.0[4] == (AccountMetaPlan { pubkey: system_program_id(), is_signer: false, is_writable: false })
            &&& user_seeds_ok(authority, admin_profile_pda, c.0[1].pubkey)
            &&& c.1 == seq![FieldData::U64(amount)]
        },
        spec_prepare_user_close_profile(authority, admin_profile_pda) is Ok <==> spec_user_pda(authority, admin_profile_pda) is Some,
        spec_prepare_user_close_profile(authority, admin_profile_pda) matches Ok(c) ==> {
            &&& c.0.len() == 3
                &&& c.0[0] == (AccountMetaPlan { pubkey: authority, is_signer: true, is_writable: true })
                &&& c.0[1] == (AccountMetaPlan { pubkey: spec_user_pda(authority, admin_profile_pda)->0, is_signer: false, is_writable: true })
                &&& c.0[2] == (AccountMetaPlan { pubkey: admin_profile_pda, is_signer: false, is_writable: false })
            &&& user_seeds_ok(authority, admin_profile_pda, c.0[1].pubkey)
            &&& c.1 == Seq::<FieldData>::empty()
        },
        spec_prepare_user_dispatch_command(authority, admin_profile_pda, command_id, payload) is Ok <==> spec_user_pda(authority, admin_profile_pda) is Some,
        spec_prepare_user_dispatch_command(authority, admin_profile_pda, command_id, payload) matches Ok(c) ==> {
            &&& c.0.len() == 4
                &&& c.0[0] == (AccountMetaPlan { pubkey: authority, is_signer: true, is_writable: false })
                &&& c.0[1] == (AccountMetaPlan { pubkey: spec_user_pda(authority, admin_profile_pda)->0, is_signer: false, is_writable: true })
                &&& c.0[2] == (AccountMetaPlan { pubkey: admin_profile_pda, is_signer: false, is_writable: true })
                &&& c.0[3] == (AccountMetaPlan { pubkey: system_program_id(), is_signer: false, is_writable: false })
            &&& user_seeds_ok(authority, admin_profile_pda, c.0[1].pubkey)
            &&& c.1 == seq![FieldData::U16(command_id), FieldData::Bytes(payload)]
        },
{
}

/// Every admin instruction is prepared for the admin's own profile: it is
/// built exactly when the address derived from `["admin", authority]` exists,
/// the authority comes first and signs, and the second account is that
/// address, which passes the program's seeds check on the admin profile; the
/// other accounts and the arguments are those the instruction takes.
pub proof fn lemma_admin_instructions_address_the_admins_profile(
    authority: Pubkey,
    communication_pubkey: Pubkey,
    new_key: Pubkey,
    new_prices: Seq<PriceEntry>,
    amount: u64,
    destination: Pubkey,
    target_user_profile_pda: Pubkey,
    command_id64: u64,
    payload: Seq<u8>,
)
    ensures
        spec_prepare_admin_register_profile(authority, communication_pubkey) is Ok <==> spec_admin_pda(authority) is Some,
        spec_prepare_admin_register_profile(authority, communication_pubkey) matches Ok(c) ==> {
            &&& c.0.len() == 3
                &&& c.0[0] == (AccountMetaPlan { pubkey: authority, is_signer: true, is_writable: true })
                &&& c.0[1] == (AccountMetaPlan { pubkey: spec_admin_pda(authority)->0, is_signer: false, is_writable: true })
                &&& c.0[2] == (AccountMetaPlan { pubkey: system_program_id(), is_signer: false, is_writable: false })
            &&& admin_seeds_ok(authority, c.0[1].pubkey)
            &&& c.1 == seq![FieldData::Key(communication_pubkey)]
        },
        spec_prepare_admin_update_comm_key(authority, new_key) is Ok <==> spec_admin_pda(authority) is Some,
        spec_prepare_admin_update_comm_key(authority, new_key) matches Ok(c) ==> {
            &&& c.0.len() == 2
                &&& c.0[0] == (AccountMetaPlan { pubkey: authority, is_signer: true, is_writable: true })
                &&& c.0[1] == (AccountMetaPlan { pubkey: spec_admin_pda(authority)->0, is_signer: false, is_writable: true })
            &&& admin_seeds_ok(authority, c.0[1].pubkey)
            &&& c.1 == seq![FieldData::Key(new_key)]
        },
        spec_prepare_admin_update_prices(authority, new_prices) is Ok <==> spec_admin_pda(authority) is Some,
        spec_prepare_admin_update_prices(authority, new_prices) matches Ok(c) ==> {
            &&& c.0.len() == 3
                &&& c.0[0] == (AccountMetaPlan { pubkey: authority, is_signer: true, is_writable: true })
                &&& c.0[1] == (AccountMetaPlan { pubkey: spec_admin_pda(authority)->0, is_signer: false, is_writable: true })
                &&& c.0[2] == (AccountMetaPlan { pubkey: system_program_id(), is_signer: false, is_writable: false })
            &&& admin_seeds_ok(authority, c.0[1].pubkey)
            &&& c.1 == seq![FieldData::Prices(new_prices)]
        },
        spec_prepare_admin_withdraw(authority, amount, destination) is Ok <==> spec_admin_pda(authority) is Some,
        spec_prepare_admin_withdraw(authority, amount, destination) matches Ok(c) ==> {
            &&& c.0.len() == 4
                &&& c.0[0] == (AccountMetaPlan { pubkey: authority, is_signer: true, is_writable: true })
                &&& c.0[1] == (AccountMetaPlan { pubkey: spec_admin_pda(authority)->0, is_signer: false, is_writable: true })
                &&& c.0[2] == (AccountMetaPlan { pubkey: destination, is_signer: false, is_writable: true })
                &&& c.0[3] == (AccountMetaPlan { pubkey: system_program_id(), is_signer: false, is_writable: false })
            &&& admin_seeds_ok(authority, c.0[1].pubkey)
            &&& c.1 == seq![FieldData::U64(amount)]
        },
        spec_prepare_admin_close_profile(authority) is Ok <==> spec_admin_pda(authority) is Some,
        spec_prepare_admin_close_profile(authority) matches Ok(c) ==> {
            &&& c.0.len() == 2
                &&& c.0[0] == (AccountMetaPlan { pubkey: authority, is_signer: true, is_writable: true })
                &&& c.0[1] == (AccountMetaPlan { pubkey: spec_admin_pda(authority)->0, is_signer: false, is_writable: true })
            &&& admin_seeds_ok(authority, c.0[1].pubkey)
            &&& c.1 == Seq::<FieldData>::empty()
        },
        spec_prepare_admin_dispatch_command(authority, target_user_profile_pda, command_id64, payload) is Ok <==> spec_admin_pda(authority) is Some,
        spec_prepare_admin_dispatch_command(authority, target_user_profile_pda, command_id64, payload) matches Ok(c) ==> {
            &&& c.0.len() == 3
                &&& c.0[0] == (AccountMetaPlan { pubkey: authority, is_signer: true, is_writable: false })
                &&& c.0[1] == (AccountMetaPlan { pubkey: spec_admin_pda(authority)->0, is_signer: false, is_writable: false })
                &&& c.0[2] == (AccountMetaPlan { pubkey: target_user_profile_pda, is_signer: false, is_writable: false })
            &&& admin_seeds_ok(authority, c.0[1].pubkey)
            &&& c.1 == seq![FieldData::U64(command_id64), FieldData::Bytes(payload)]
        },
{
}

/// `log_action` is prepared for the two profiles given: the signer first,
/// then the user profile and the admin profile, both writable, and the
/// session id and action code as arguments.
pub proof fn lemma_log_action_addresses_both_profiles(
    authority: Pubkey,
    user_profile_pda: Pubkey,
    admin_profile_pda: Pubkey,
    session_id: u64,
    action_code: u16,
)
    ensures
        spec_prepare_log_action(authority, user_profile_pda, admin_profile_pda, session_id, action_code)
            matches Ok(c) && c.0 == seq![
            (AccountMetaPlan { pubkey: authority, is_signer: true, is_writable: true }),
            (AccountMetaPlan { pubkey: user_profile_pda, is_signer: false, is_writable: true }),
            (AccountMetaPlan { pubkey: admin_profile_pda, is_signer: false, is_writable: true }),
        ] && c.1 == seq![FieldData::U64(session_id), FieldData::U16(action_code)],
{
}

} // verus!
