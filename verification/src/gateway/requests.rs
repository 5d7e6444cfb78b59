//! The gateway's transaction requests: each names its keys in base58 and
//! its small integers as `u32`; the gateway reads the keys, narrows the
//! integers to the instruction's types and prepares the instruction.
use vstd::prelude::*;
use crate::pubkey::Pubkey;
use crate::program::state::PriceEntry;
use crate::runtime::parse_pubkey_text;
use crate::gateway::events::{PriceEntryMessage, key_of_text};
use crate::connector::client::{
    BuildError, InstructionContent, InstructionKind, InstructionPlan, is_instruction,
    prepare_admin_register_profile, spec_prepare_admin_register_profile, prepare_admin_update_comm_key, spec_prepare_admin_update_comm_key, prepare_admin_update_prices, spec_prepare_admin_update_prices, prepare_admin_withdraw, spec_prepare_admin_withdraw, prepare_admin_close_profile, spec_prepare_admin_close_profile, prepare_admin_dispatch_command, spec_prepare_admin_dispatch_command, prepare_user_create_profile, spec_prepare_user_create_profile, prepare_user_update_comm_key, spec_prepare_user_update_comm_key, prepare_user_deposit, spec_prepare_user_deposit, prepare_user_withdraw, spec_prepare_user_withdraw, prepare_user_close_profile, spec_prepare_user_close_profile, prepare_user_dispatch_command, spec_prepare_user_dispatch_command, prepare_log_action, spec_prepare_log_action,
};

verus! {

/// Why a request could not be served.
#[derive(Clone, Copy, Debug, PartialEq, Eq, Structural)]
pub enum GatewayError {
    /// A key is not a base58 address.
    InvalidPubkey,
    /// A profile address could not be derived.
    AddressNotDerivable,
}

/// The address a text names.
pub open spec fn spec_key(s: String) -> Option<Pubkey> {
    key_of_text(s@)
}

/// Reads an address written in base58.
pub fn parse_pubkey(s: &String) -> (r: Result<Pubkey, GatewayError>)
    ensures
        match spec_key(*s) {
            Some(k) => r == Ok::<Pubkey, GatewayError>(k),
            None => r == Err::<Pubkey, GatewayError>(GatewayError::InvalidPubkey),
        },
{
    match parse_pubkey_text(s.as_str()) {
        Some(b) => Ok(Pubkey::from_slice(b.as_slice())),
        None => Err(GatewayError::InvalidPubkey),
    }
}

/// `r` is what the gateway answers when `s` describes the instruction: none
/// when a key did not read.
pub open spec fn served_as(
    r: Result<InstructionPlan, GatewayError>,
    k: InstructionKind,
    s: Option<Result<InstructionContent, BuildError>>,
) -> bool {
    match s {
        None => r == Err::<InstructionPlan, GatewayError>(GatewayError::InvalidPubkey),
        Some(Err(_)) => r == Err::<InstructionPlan, GatewayError>(GatewayError::AddressNotDerivable),
        Some(Ok(c)) => r is Ok && is_instruction(r->Ok_0, k, c),
    }
}

/// A price list as the instruction takes it: each command id narrowed to
/// 16 bits.
pub open spec fn narrowed_prices(ms: Seq<PriceEntryMessage>) -> Seq<PriceEntry> {
    ms.map_values(|m: PriceEntryMessage| PriceEntry { command_id: m.command_id as u16, price: m.price })
}

/// A requested price list is taken entry for entry: the same number of
/// entries, each with its command id narrowed to 16 bits and its price.
pub proof fn lemma_narrowed_prices_keep_each_entry(ms: Seq<PriceEntryMessage>)
    ensures
        narrowed_prices(ms).len() == ms.len(),
        forall|i: int|
            0 <= i < ms.len() ==> (#[trigger] narrowed_prices(ms)[i]).command_id == ms[i].command_id
                as u16 && narrowed_prices(ms)[i].price == ms[i].price,
{
}

/// A price list as the instruction takes it.
pub fn narrow_prices(ms: &Vec<PriceEntryMessage>) -> (r: Vec<PriceEntry>)
    ensures
        r@ == narrowed_prices(ms@),
{
    let mut out: Vec<PriceEntry> = Vec::new();
    let mut i: usize = 0;
    while i < ms.len()
        invariant
            i <= ms@.len(),
            out@ == narrowed_prices(ms@.take(i as int)),
        decreases ms@.len() - i,
    {
        let m = ms[i];
        out.push(PriceEntry { command_id: m.command_id as u16, price: m.price });
        assert(out@ =~= narrowed_prices(ms@.take(i + 1)));
        i = i + 1;
    }
    assert(ms@.take(ms@.len() as int) =~= ms@);
    out
}

fn from_build(r: Result<InstructionPlan, BuildError>) -> (g: Result<InstructionPlan, GatewayError>)
    ensures
        match r {
            Ok(p) => g == Ok::<InstructionPlan, GatewayError>(p),
            Err(_) => g == Err::<InstructionPlan, GatewayError>(GatewayError::AddressNotDerivable),
        },
{
    match r {
        Ok(p) => Ok(p),
        Err(_) => Err(GatewayError::AddressNotDerivable),
    }
}

/// A `admin_register_profile` request.
#[derive(Clone, Debug)]
pub struct PrepareAdminRegisterProfileRequest {
    pub authority_pubkey: String,
    pub communication_pubkey: String,
}

/// What the gateway prepares for a `admin_register_profile` request.
pub open spec fn spec_serve_admin_register_profile(req: PrepareAdminRegisterProfileRequest) -> Option<Result<InstructionContent, BuildError>> {
    match (spec_key(req.authority_pubkey), spec_key(req.communication_pubkey)) {
        (Some(authority), Some(communication_pubkey)) => Some(spec_prepare_admin_register_profile(authority, communication_pubkey)),
        _ => None,
    }
}

/// Serves a `admin_register_profile` request.
pub fn serve_admin_register_profile(req: PrepareAdminRegisterProfileRequest) -> (r: Result<InstructionPlan, GatewayError>)
    ensures
        served_as(r, InstructionKind::AdminRegisterProfile, spec_serve_admin_register_profile(req)),
{
    let authority = match parse_pubkey(&req.authority_pubkey) {
        Ok(k) => k,
        Err(e) => return Err(e),
    };
    let communication_pubkey = match parse_pubkey(&req.communication_pubkey) {
        Ok(k) => k,
        Err(e) => return Err(e),
    };
    from_build(prepare_admin_register_profile(authority, communication_pubkey))
}

/// A `admin_update_comm_key` request.
#[derive(Clone, Debug)]
pub struct PrepareAdminUpdateCommKeyRequest {
    pub authority_pubkey: String,
    pub new_key: String,
}

/// What the gateway prepares for a `admin_update_comm_key` request.
pub open spec fn spec_serve_admin_update_comm_key(req: PrepareAdminUpdateCommKeyRequest) -> Option<Result<InstructionContent, BuildError>> {
    match (spec_key(req.authority_pubkey), spec_key(req.new_key)) {
        (Some(authority), Some(new_key)) => Some(spec_prepare_admin_update_comm_key(authority, new_key)),
        _ => None,
    }
}

/// Serves a `admin_update_comm_key` request.
pub fn serve_admin_update_comm_key(req: PrepareAdminUpdateCommKeyRequest) -> (r: Result<InstructionPlan, GatewayError>)
    ensures
        served_as(r, InstructionKind::AdminUpdateCommKey, spec_serve_admin_update_comm_key(req)),
{
    let authority = match parse_pubkey(&req.authority_pubkey) {
        Ok(k) => k,
        Err(e) => return Err(e),
    };
    let new_key = match parse_pubkey(&req.new_key) {
        Ok(k) => k,
        Err(e) => return Err(e),
    };
    from_build(prepare_admin_update_comm_key(authority, new_key))
}

/// A `admin_update_prices` request.
#[derive(Clone, Debug)]
pub struct PrepareAdminUpdatePricesRequest {
    pub authority_pubkey: String,
    pub new_prices: Vec<PriceEntryMessage>,
}

/// What the gateway prepares for a `admin_update_prices` request.
pub open spec fn spec_serve_admin_update_prices(req: PrepareAdminUpdatePricesRequest) -> Option<Result<InstructionContent, BuildError>> {
    match spec_key(req.authority_pubkey) {
        Some(authority) => Some(spec_prepare_admin_update_prices(authority, narrowed_prices(req.new_prices@))),
        _ => None,
    }
}

/// Serves a `admin_update_prices` request.
pub fn serve_admin_update_prices(req: PrepareAdminUpdatePricesRequest) -> (r: Result<InstructionPlan, GatewayError>)
    requires
        req.new_prices@.len() <= u32::MAX,
    ensures
        served_as(r, InstructionKind::AdminUpdatePrices, spec_serve_admin_update_prices(req)),
{
    let authority = match parse_pubkey(&req.authority_pubkey) {
        Ok(k) => k,
        Err(e) => return Err(e),
    };
    let new_prices = narrow_prices(&req.new_prices);
    from_build(prepare_admin_update_prices(authority, new_prices))
}

/// A `admin_withdraw` request.
#[derive(Clone, Debug)]
pub struct PrepareAdminWithdrawRequest {
    pub authority_pubkey: String,
    pub amount: u64,
    pub destination: String,
}

/// What the gateway prepares for a `admin_withdraw` request.
pub open spec fn spec_serve_admin_withdraw(req: PrepareAdminWithdrawRequest) -> Option<Result<InstructionContent, BuildError>> {
    match (spec_key(req.authority_pubkey), spec_key(req.destination)) {
        (Some(authority), Some(destination)) => Some(spec_prepare_admin_withdraw(authority, req.amount, destination)),
        _ => None,
    }
}

/// Serves a `admin_withdraw` request.
pub fn serve_admin_withdraw(req: PrepareAdminWithdrawRequest) -> (r: Result<InstructionPlan, GatewayError>)
    ensures
        served_as(r, InstructionKind::AdminWithdraw, spec_serve_admin_withdraw(req)),
{
    let authority = match parse_pubkey(&req.authority_pubkey) {
        Ok(k) => k,
        Err(e) => return Err(e),
    };
    let destination = match parse_pubkey(&req.destination) {
        Ok(k) => k,
        Err(e) => return Err(e),
    };
    from_build(prepare_admin_withdraw(authority, req.amount, destination))
}

/// A `admin_close_profile` request.
#[derive(Clone, Debug)]
pub struct PrepareAdminCloseProfileRequest {
    pub authority_pubkey: String,
}

/// What the gateway prepares for a `admin_close_profile` request.
pub open spec fn spec_serve_admin_close_profile(req: PrepareAdminCloseProfileRequest) -> Option<Result<InstructionContent, BuildError>> {
    match spec_key(req.authority_pubkey) {
        Some(authority) => Some(spec_prepare_admin_close_profile(authority)),
        _ => None,
    }
}

/// Serves a `admin_close_profile` request.
pub fn serve_admin_close_profile(req: PrepareAdminCloseProfileRequest) -> (r: Result<InstructionPlan, GatewayError>)
    ensures
        served_as(r, InstructionKind::AdminCloseProfile, spec_serve_admin_close_profile(req)),
{
    let authority = match parse_pubkey(&req.authority_pubkey) {
        Ok(k) => k,
        Err(e) => return Err(e),
    };
    from_build(prepare_admin_close_profile(authority))
}

/// A `admin_dispatch_command` request.
#[derive(Clone, Debug)]
pub struct PrepareAdminDispatchCommandRequest {
    pub authority_pubkey: String,
    pub target_user_profile_pda: String,
    pub command_id: u64,
    pub payload: Vec<u8>,
}

/// What the gateway prepares for a `admin_dispatch_command` request.
pub open spec fn spec_serve_admin_dispatch_command(req: PrepareAdminDispatchCommandRequest) -> Option<Result<InstructionContent, BuildError>> {
    match (spec_key(req.authority_pubkey), spec_key(req.target_user_profile_pda)) {
        (Some(authority), Some(target_user_profile_pda)) => Some(spec_prepare_admin_dispatch_command(authority, target_user_profile_pda, req.command_id, req.payload@)),
        _ => None,
    }
}

/// Serves a `admin_dispatch_command` request.
pub fn serve_admin_dispatch_command(req: PrepareAdminDispatchCommandRequest) -> (r: Result<InstructionPlan, GatewayError>)
    requires
        req.payload@.len() <= u32::MAX,
    ensures
        served_as(r, InstructionKind::AdminDispatchCommand, spec_serve_admin_dispatch_command(req)),
{
    let authority = match parse_pubkey(&req.authority_pubkey) {
        Ok(k) => k,
        Err(e) => return Err(e),
    };
    let target_user_profile_pda = match parse_pubkey(&req.target_user_profile_pda) {
        Ok(k) => k,
        Err(e) => return Err(e),
    };
    from_build(prepare_admin_dispatch_command(authority, target_user_profile_pda, req.command_id, req.payload))
}

/// A `user_create_profile` request.
#[derive(Clone, Debug)]
pub struct PrepareUserCreateProfileRequest {
    pub authority_pubkey: String,
    pub target_admin_pda: String,
    pub communication_pubkey: String,
}

/// What the gateway prepares for a `user_create_profile` request.
pub open spec fn spec_serve_user_create_profile(req: PrepareUserCreateProfileRequest) -> Option<Result<InstructionContent, BuildError>> {
    match (spec_key(req.authority_pubkey), spec_key(req.target_admin_pda), spec_key(req.communication_pubkey)) {
        (Some(authority), Some(target_admin_pda), Some(communication_pubkey)) => Some(spec_prepare_user_create_profile(authority, target_admin_pda, communication_pubkey)),
        _ => None,
    }
}

/// Serves a `user_create_profile` request.
pub fn serve_user_create_profile(req: PrepareUserCreateProfileRequest) -> (r: Result<InstructionPlan, GatewayError>)
    ensures
        served_as(r, InstructionKind::UserCreateProfile, spec_serve_user_create_profile(req)),
{
    let authority = match parse_pubkey(&req.authority_pubkey) {
        Ok(k) => k,
        Err(e) => return Err(e),
    };
    let target_admin_pda = match parse_pubkey(&req.target_admin_pda) {
        Ok(k) => k,
        Err(e) => return Err(e),
    };
    let communication_pubkey = match parse_pubkey(&req.communication_pubkey) {
        Ok(k) => k,
        Err(e) => return Err(e),
    };
    from_build(prepare_user_create_profile(authority, target_admin_pda, communication_pubkey))
}

/// A `user_update_comm_key` request.
#[derive(Clone, Debug)]
pub struct PrepareUserUpdateCommKeyRequest {
    pub authority_pubkey: String,
    pub admin_profile_pda: String,
    pub new_key: String,
}

/// What the gateway prepares for a `user_update_comm_key` request.
pub open spec fn spec_serve_user_update_comm_key(req: PrepareUserUpdateCommKeyRequest) -> Option<Result<InstructionContent, BuildError>> {
    match (spec_key(req.authority_pubkey), spec_key(req.admin_profile_pda), spec_key(req.new_key)) {
        (Some(authority), Some(admin_profile_pda), Some(new_key)) => Some(spec_prepare_user_update_comm_key(authority, admin_profile_pda, new_key)),
        _ => None,
    }
}

/// Serves a `user_update_comm_key` request.
pub fn serve_user_update_comm_key(req: PrepareUserUpdateCommKeyRequest) -> (r: Result<InstructionPlan, GatewayError>)
    ensures
        served_as(r, InstructionKind::UserUpdateCommKey, spec_serve_user_update_comm_key(req)),
{
    let authority = match parse_pubkey(&req.authority_pubkey) {
        Ok(k) => k,
        Err(e) => return Err(e),
    };
    let admin_profile_pda = match parse_pubkey(&req.admin_profile_pda) {
        Ok(k) => k,
        Err(e) => return Err(e),
    };
    let new_key = match parse_pubkey(&req.new_key) {
        Ok(k) => k,
        Err(e) => return Err(e),
    };
    from_build(prepare_user_update_comm_key(authority, admin_profile_pda, new_key))
}

/// A `user_deposit` request.
#[derive(Clone, Debug)]
pub struct PrepareUserDepositRequest {
    pub authority_pubkey: String,
    pub admin_profile_pda: String,
    pub amount: u64,
}

/// What the gateway prepares for a `user_deposit` request.
pub open spec fn spec_serve_user_deposit(req: PrepareUserDepositRequest) -> Option<Result<InstructionContent, BuildError>> {
    match (spec_key(req.authority_pubkey), spec_key(req.admin_profile_pda)) {
        (Some(authority), Some(admin_profile_pda)) => Some(spec_prepare_user_deposit(authority, admin_profile_pda, req.amount)),
        _ => None,
    }
}

/// Serves a `user_deposit` request.
pub fn serve_user_deposit(req: PrepareUserDepositRequest) -> (r: Result<InstructionPlan, GatewayError>)
    ensures
        served_as(r, InstructionKind::UserDeposit, spec_serve_user_deposit(req)),
{
    let authority = match parse_pubkey(&req.authority_pubkey) {
        Ok(k) => k,
        Err(e) => return Err(e),
    };
    let admin_profile_pda = match parse_pubkey(&req.admin_profile_pda) {
        Ok(k) => k,
        Err(e) => return Err(e),
    };
    from_build(prepare_user_deposit(authority, admin_profile_pda, req.amount))
}

/// A `user_withdraw` request.
#[derive(Clone, Debug)]
pub struct PrepareUserWithdrawRequest {
    pub authority_pubkey: String,
    pub admin_profile_pda: String,
    pub amount: u64,
    pub destination: String,
}

/// What the gateway prepares for a `user_withdraw` request.
pub open spec fn spec_serve_user_withdraw(req: PrepareUserWithdrawRequest) -> Option<Result<InstructionContent, BuildError>> {
    match (spec_key(req.authority_pubkey), spec_key(req.admin_profile_pda), spec_key(req.destination)) {
        (Some(authority), Some(admin_profile_pda), Some(destination)) => Some(spec_prepare_user_withdraw(authority, admin_profile_pda, req.amount, destination)),
        _ => None,
    }
}

/// Serves a `user_withdraw` request.
pub fn serve_user_withdraw(req: PrepareUserWithdrawRequest) -> (r: Result<InstructionPlan, GatewayError>)
    ensures
        served_as(r, InstructionKind::UserWithdraw, spec_serve_user_withdraw(req)),
{
    let authority = match parse_pubkey(&req.authority_pubkey) {
        Ok(k) => k,
        Err(e) => return Err(e),
    };
    let admin_profile_pda = match parse_pubkey(&req.admin_profile_pda) {
        Ok(k) => k,
        Err(e) => return Err(e),
    };
    let destination = match parse_pubkey(&req.destination) {
        Ok(k) => k,
        Err(e) => return Err(e),
    };
    from_build(prepare_user_withdraw(authority, admin_profile_pda, req.amount, destination))
}

/// A `user_close_profile` request.
#[derive(Clone, Debug)]
pub struct PrepareUserCloseProfileRequest {
    pub authority_pubkey: String,
    pub admin_profile_pda: String,
}

/// What the gateway prepares for a `user_close_profile` request.
pub open spec fn spec_serve_user_close_profile(req: PrepareUserCloseProfileRequest) -> Option<Result<InstructionContent, BuildError>> {
    match (spec_key(req.authority_pubkey), spec_key(req.admin_profile_pda)) {
        (Some(authority), Some(admin_profile_pda)) => Some(spec_prepare_user_close_profile(authority, admin_profile_pda)),
        _ => None,
    }
}

/// Serves a `user_close_profile` request.
pub fn serve_user_close_profile(req: PrepareUserCloseProfileRequest) -> (r: Result<InstructionPlan, GatewayError>)
    ensures
        served_as(r, InstructionKind::UserCloseProfile, spec_serve_user_close_profile(req)),
{
    let authority = match parse_pubkey(&req.authority_pubkey) {
        Ok(k) => k,
        Err(e) => return Err(e),
    };
    let admin_profile_pda = match parse_pubkey(&req.admin_profile_pda) {
        Ok(k) => k,
        Err(e) => return Err(e),
    };
    from_build(prepare_user_close_profile(authority, admin_profile_pda))
}

/// A `user_dispatch_command` request.
#[derive(Clone, Debug)]
pub struct PrepareUserDispatchCommandRequest {
    pub authority_pubkey: String,
    pub target_admin_pda: String,
    pub command_id: u32,
    pub payload: Vec<u8>,
}

/// What the gateway prepares for a `user_dispatch_command` request.
pub open spec fn spec_serve_user_dispatch_command(req: PrepareUserDispatchCommandRequest) -> Option<Result<InstructionContent, BuildError>> {
    match (spec_key(req.authority_pubkey), spec_key(req.target_admin_pda)) {
        (Some(authority), Some(admin_profile_pda)) => Some(spec_prepare_user_dispatch_command(authority, admin_profile_pda, req.command_id as u16, req.payload@)),
        _ => None,
    }
}

/// Serves a `user_dispatch_command` request.
pub fn serve_user_dispatch_command(req: PrepareUserDispatchCommandRequest) -> (r: Result<InstructionPlan, GatewayError>)
    requires
        req.payload@.len() <= u32::MAX,
    ensures
        served_as(r, InstructionKind::UserDispatchCommand, spec_serve_user_dispatch_command(req)),
{
    let authority = match parse_pubkey(&req.authority_pubkey) {
        Ok(k) => k,
        Err(e) => return Err(e),
    };
    let admin_profile_pda = match parse_pubkey(&req.target_admin_pda) {
        Ok(k) => k,
        Err(e) => return Err(e),
    };
    from_build(prepare_user_dispatch_command(authority, admin_profile_pda, req.command_id as u16, req.payload))
}

/// A `log_action` request.
#[derive(Clone, Debug)]
pub struct PrepareLogActionRequest {
    pub authority_pubkey: String,
    pub user_profile_pda: String,
    pub admin_profile_pda: String,
    pub session_id: u64,
    pub action_code: u32,
}

/// What the gateway prepares for a `log_action` request.
pub open spec fn spec_serve_log_action(req: PrepareLogActionRequest) -> Option<Result<InstructionContent, BuildError>> {
    match (spec_key(req.authority_pubkey), spec_key(req.user_profile_pda), spec_key(req.admin_profile_pda)) {
        (Some(authority), Some(user_profile_pda), Some(admin_profile_pda)) => Some(spec_prepare_log_action(authority, user_profile_pda, admin_profile_pda, req.session_id, req.action_code as u16)),
        _ => None,
    }
}

/// Serves a `log_action` request.
pub fn serve_log_action(req: PrepareLogActionRequest) -> (r: Result<InstructionPlan, GatewayError>)
    ensures
        served_as(r, InstructionKind::LogAction, spec_serve_log_action(req)),
{
    let authority = match parse_pubkey(&req.authority_pubkey) {
        Ok(k) => k,
        Err(e) => return Err(e),
    };
    let user_profile_pda = match parse_pubkey(&req.user_profile_pda) {
        Ok(k) => k,
        Err(e) => return Err(e),
    };
    let admin_profile_pda = match parse_pubkey(&req.admin_profile_pda) {
        Ok(k) => k,
        Err(e) => return Err(e),
    };
    from_build(prepare_log_action(authority, user_profile_pda, admin_profile_pda, req.session_id, req.action_code as u16))
}

/// The request is served by preparing the instruction for the addresses its
/// fields name (each read as base58) and its other fields as they are; a
/// field that names no address refuses it.
pub proof fn lemma_serve_admin_register_profile_reads_the_request(req: PrepareAdminRegisterProfileRequest, authority: Pubkey, communication_pubkey: Pubkey)
    ensures
        spec_key(req.authority_pubkey) == Some(authority) && spec_key(req.communication_pubkey) == Some(communication_pubkey) ==> spec_serve_admin_register_profile(req) == Some(spec_prepare_admin_register_profile(authority, communication_pubkey)),
        spec_key(req.authority_pubkey) is None || spec_key(req.communication_pubkey) is None ==> spec_serve_admin_register_profile(req) is None,
{
}

/// The request is served by preparing the instruction for the addresses its
/// fields name (each read as base58) and its other fields as they are; a
/// field that names no address refuses it.
pub proof fn lemma_serve_admin_update_comm_key_reads_the_request(req: PrepareAdminUpdateCommKeyRequest, authority: Pubkey, new_key: Pubkey)
    ensures
        spec_key(req.authority_pubkey) == Some(authority) && spec_key(req.new_key) == Some(new_key) ==> spec_serve_admin_update_comm_key(req) == Some(spec_prepare_admin_update_comm_key(authority, new_key)),
        spec_key(req.authority_pubkey) is None || spec_key(req.new_key) is None ==> spec_serve_admin_update_comm_key(req) is None,
{
}

/// The request is served by preparing the instruction for the addresses its
/// fields name (each read as base58) and its other fields as they are; a
/// field that names no address refuses it.
pub proof fn lemma_serve_admin_withdraw_reads_the_request(req: PrepareAdminWithdrawRequest, authority: Pubkey, destination: Pubkey)
    ensures
        spec_key(req.authority_pubkey) == Some(authority) && spec_key(req.destination) == Some(destination) ==> spec_serve_admin_withdraw(req) == Some(spec_prepare_admin_withdraw(authority, req.amount, destination)),
        spec_key(req.authority_pubkey) is None || spec_key(req.destination) is None ==> spec_serve_admin_withdraw(req) is None,
{
}

/// The request is served by preparing the instruction for the addresses its
/// fields name (each read as base58) and its other fields as they are; a
/// field that names no address refuses it.
pub proof fn lemma_serve_admin_dispatch_command_reads_the_request(req: PrepareAdminDispatchCommandRequest, authority: Pubkey, target_user_profile_pda: Pubkey)
    ensures
        spec_key(req.authority_pubkey) == Some(authority) && spec_key(req.target_user_profile_pda) == Some(target_user_profile_pda) ==> spec_serve_admin_dispatch_command(req) == Some(spec_prepare_admin_dispatch_command(authority, target_user_profile_pda, req.command_id, req.payload@)),
        spec_key(req.authority_pubkey) is None || spec_key(req.target_user_profile_pda) is None ==> spec_serve_admin_dispatch_command(req) is None,
{
}

/// The request is served by preparing the instruction for the addresses its
/// fields name (each read as base58) and its other fields as they are; a
/// field that names no address refuses it.
pub proof fn lemma_serve_user_create_profile_reads_the_request(req: PrepareUserCreateProfileRequest, authority: Pubkey, target_admin_pda: Pubkey, communication_pubkey: Pubkey)
    ensures
        spec_key(req.authority_pubkey) == Some(authority) && spec_key(req.target_admin_pda) == Some(target_admin_pda) && spec_key(req.communication_pubkey) == Some(communication_pubkey) ==> spec_serve_user_create_profile(req) == Some(spec_prepare_user_create_profile(authority, target_admin_pda, communication_pubkey)),
        spec_key(req.authority_pubkey) is None || spec_key(req.target_admin_pda) is None || spec_key(req.communication_pubkey) is None ==> spec_serve_user_create_profile(req) is None,
{
}

/// The request is served by preparing the instruction for the addresses its
/// fields name (each read as base58) and its other fields as they are; a
/// field that names no address refuses it.
pub proof fn lemma_serve_user_update_comm_key_reads_the_request(req: PrepareUserUpdateCommKeyRequest, authority: Pubkey, admin_profile_pda: Pubkey, new_key: Pubkey)
    ensures
        spec_key(req.authority_pubkey) == Some(authority) && spec_key(req.admin_profile_pda) == Some(admin_profile_pda) && spec_key(req.new_key) == Some(new_key) ==> spec_serve_user_update_comm_key(req) == Some(spec_prepare_user_update_comm_key(authority, admin_profile_pda, new_key)),
        spec_key(req.authority_pubkey) is None || spec_key(req.admin_profile_pda) is None || spec_key(req.new_key) is None ==> spec_serve_user_update_comm_key(req) is None,
{
}

/// The request is served by preparing the instruction for the addresses its
/// fields name (each read as base58) and its other fields as they are; a
/// field that names no address refuses it.
pub proof fn lemma_serve_user_deposit_reads_the_request(req: PrepareUserDepositRequest, authority: Pubkey, admin_profile_pda: Pubkey)
    ensures
        spec_key(req.authority_pubkey) == Some(authority) && spec_key(req.admin_profile_pda) == Some(admin_profile_pda) ==> spec_serve_user_deposit(req) == Some(spec_prepare_user_deposit(authority, admin_profile_pda, req.amount)),
        spec_key(req.authority_pubkey) is None || spec_key(req.admin_profile_pda) is None ==> spec_serve_user_deposit(req) is None,
{
}

/// The request is served by preparing the instruction for the addresses its
/// fields name (each read as base58) and its other fields as they are; a
/// field that names no address refuses it.
pub proof fn lemma_serve_user_withdraw_reads_the_request(req: PrepareUserWithdrawRequest, authority: Pubkey, admin_profile_pda: Pubkey, destination: Pubkey)
    ensures
        spec_key(req.authority_pubkey) == Some(authority) && spec_key(req.admin_profile_pda) == Some(admin_profile_pda) && spec_key(req.destination) == Some(destination) ==> spec_serve_user_withdraw(req) == Some(spec_prepare_user_withdraw(authority, admin_profile_pda, req.amount, destination)),
        spec_key(req.authority_pubkey) is None || spec_key(req.admin_profile_pda) is None || spec_key(req.destination) is None ==> spec_serve_user_withdraw(req) is None,
{
}

/// The request is served by preparing the instruction for the addresses its
/// fields name (each read as base58) and its other fields as they are; a
/// field that names no address refuses it.
pub proof fn lemma_serve_user_close_profile_reads_the_request(req: PrepareUserCloseProfileRequest, authority: Pubkey, admin_profile_pda: Pubkey)
    ensures
        spec_key(req.authority_pubkey) == Some(authority) && spec_key(req.admin_profile_pda) == Some(admin_profile_pda) ==> spec_serve_user_close_profile(req) == Some(spec_prepare_user_close_profile(authority, admin_profile_pda)),
        spec_key(req.authority_pubkey) is None || spec_key(req.admin_profile_pda) is None ==> spec_serve_user_close_profile(req) is None,
{
}

/// The request is served by preparing the instruction for the addresses its
/// fields name (each read as base58) and its other fields as they are; a
/// field that names no address refuses it.
pub proof fn lemma_serve_user_dispatch_command_reads_the_request(req: PrepareUserDispatchCommandRequest, authority: Pubkey, admin_profile_pda: Pubkey)
    ensures
        spec_key(req.authority_pubkey) == Some(authority) && spec_key(req.target_admin_pda) == Some(admin_profile_pda) ==> spec_serve_user_dispatch_command(req) == Some(spec_prepare_user_dispatch_command(authority, admin_profile_pda, req.command_id as u16, req.payload@)),
        spec_key(req.authority_pubkey) is None || spec_key(req.target_admin_pda) is None ==> spec_serve_user_dispatch_command(req) is None,
{
}

/// The request is served by preparing the instruction for the addresses its
/// fields name (each read as base58) and its other fields as they are; a
/// field that names no address refuses it.
pub proof fn lemma_serve_log_action_reads_the_request(req: PrepareLogActionRequest, authority: Pubkey, user_profile_pda: Pubkey, admin_profile_pda: Pubkey)
    ensures
        spec_key(req.authority_pubkey) == Some(authority) && spec_key(req.user_profile_pda) == Some(user_profile_pda) && spec_key(req.admin_profile_pda) == Some(admin_profile_pda) ==> spec_serve_log_action(req) == Some(spec_prepare_log_action(authority, user_profile_pda, admin_profile_pda, req.session_id, req.action_code as u16)),
        spec_key(req.authority_pubkey) is None || spec_key(req.user_profile_pda) is None || spec_key(req.admin_profile_pda) is None ==> spec_serve_log_action(req) is None,
{
}

/// The request is served by preparing the instruction for the address its
/// authority field names (read as base58), with its price list taken entry
/// for entry; a field that names no address refuses it.
pub proof fn lemma_serve_admin_update_prices_reads_the_request(req: PrepareAdminUpdatePricesRequest, authority: Pubkey)
    ensures
        spec_key(req.authority_pubkey) == Some(authority) ==> spec_serve_admin_update_prices(req)
            == Some(spec_prepare_admin_update_prices(authority, narrowed_prices(req.new_prices@))),
        spec_key(req.authority_pubkey) is None ==> spec_serve_admin_update_prices(req) is None,
{
}

/// The request is served by preparing the instruction for the address its
/// authority field names (read as base58); a field that names no address
/// refuses it.
pub proof fn lemma_serve_admin_close_profile_reads_the_request(req: PrepareAdminCloseProfileRequest, authority: Pubkey)
    ensures
        spec_key(req.authority_pubkey) == Some(authority) ==> spec_serve_admin_close_profile(req)
            == Some(spec_prepare_admin_close_profile(authority)),
        spec_key(req.authority_pubkey) is None ==> spec_serve_admin_close_profile(req) is None,
{
}

} // verus!
