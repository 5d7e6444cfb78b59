//! The events the bridge program emits.
use vstd::prelude::*;
use crate::pubkey::Pubkey;
use crate::program::state::PriceEntry;
use crate::codec::FieldKind;

verus! {

/// A new admin profile was registered.
#[derive(Clone, Copy, Debug, PartialEq, Eq, Structural)]
pub struct AdminProfileRegistered {
    pub authority: Pubkey,
    pub communication_pubkey: Pubkey,
    pub ts: i64,
}

/// An admin changed its communication key.
#[derive(Clone, Copy, Debug, PartialEq, Eq, Structural)]
pub struct AdminCommKeyUpdated {
    pub authority: Pubkey,
    pub new_comm_pubkey: Pubkey,
    pub ts: i64,
}

/// An admin replaced its price list.
#[derive(Clone, Debug, PartialEq, Eq)]
pub struct AdminPricesUpdated {
    pub authority: Pubkey,
    pub new_prices: Vec<PriceEntry>,
    pub ts: i64,
}

/// An admin withdrew collected fees.
#[derive(Clone, Copy, Debug, PartialEq, Eq, Structural)]
pub struct AdminFundsWithdrawn {
    pub authority: Pubkey,
    pub amount: u64,
    pub destination: Pubkey,
    pub ts: i64,
}

/// An admin profile was closed.
#[derive(Clone, Copy, Debug, PartialEq, Eq, Structural)]
pub struct AdminProfileClosed {
    pub authority: Pubkey,
    pub ts: i64,
}

/// An admin sent a command to a user.
#[derive(Clone, Debug, PartialEq, Eq)]
pub struct AdminCommandDispatched {
    pub sender: Pubkey,
    pub target_user_authority: Pubkey,
    pub command_id: u64,
    pub payload: Vec<u8>,
    pub ts: i64,
}

/// A user created a profile for an admin service.
#[derive(Clone, Copy, Debug, PartialEq, Eq, Structural)]
pub struct UserProfileCreated {
    pub authority: Pubkey,
    pub target_admin: Pubkey,
    pub communication_pubkey: Pubkey,
    pub ts: i64,
}

/// A user changed its communication key.
#[derive(Clone, Copy, Debug, PartialEq, Eq, Structural)]
pub struct UserCommKeyUpdated {
    pub authority: Pubkey,
    pub new_comm_pubkey: Pubkey,
    pub ts: i64,
}

/// A user deposited lamports into its profile.
#[derive(Clone, Copy, Debug, PartialEq, Eq, Structural)]
pub struct UserFundsDeposited {
    pub authority: Pubkey,
    pub amount: u64,
    pub new_deposit_balance: u64,
    pub ts: i64,
}

/// A user withdrew unspent lamports from its profile.
#[derive(Clone, Copy, Debug, PartialEq, Eq, Structural)]
pub struct UserFundsWithdrawn {
    pub authority: Pubkey,
    pub amount: u64,
    pub destination: Pubkey,
    pub new_deposit_balance: u64,
    pub ts: i64,
}

/// A user profile was closed.
#[derive(Clone, Copy, Debug, PartialEq, Eq, Structural)]
pub struct UserProfileClosed {
    pub authority: Pubkey,
    pub ts: i64,
}

/// A user called a command of an admin service.
#[derive(Clone, Debug, PartialEq, Eq)]
pub struct UserCommandDispatched {
    pub sender: Pubkey,
    pub target_admin_authority: Pubkey,
    pub command_id: u16,
    pub price_paid: u64,
    pub payload: Vec<u8>,
    pub ts: i64,
}

/// A significant off-chain action was logged.
#[derive(Clone, Copy, Debug, PartialEq, Eq, Structural)]
pub struct OffChainActionLogged {
    pub actor: Pubkey,
    pub session_id: u64,
    pub action_code: u16,
    pub ts: i64,
}

/// The kinds of event the bridge program emits, in the order in which a
/// record's discriminator is compared against them.
#[derive(Clone, Copy, Debug, PartialEq, Eq, Structural)]
pub enum EventKind {
    AdminProfileRegistered,
    AdminCommKeyUpdated,
    AdminPricesUpdated,
    AdminFundsWithdrawn,
    AdminProfileClosed,
    AdminCommandDispatched,
    UserProfileCreated,
    UserCommKeyUpdated,
    UserFundsDeposited,
    UserFundsWithdrawn,
    UserProfileClosed,
    UserCommandDispatched,
    OffChainActionLogged,
}

/// The kinds of event in the order in which they are tried.
pub open spec fn all_event_kinds() -> Seq<EventKind> {
    seq![
        EventKind::AdminProfileRegistered,
        EventKind::AdminCommKeyUpdated,
        EventKind::AdminPricesUpdated,
        EventKind::AdminFundsWithdrawn,
        EventKind::AdminProfileClosed,
        EventKind::AdminCommandDispatched,
        EventKind::UserProfileCreated,
        EventKind::UserCommKeyUpdated,
        EventKind::UserFundsDeposited,
        EventKind::UserFundsWithdrawn,
        EventKind::UserProfileClosed,
        EventKind::UserCommandDispatched,
        EventKind::OffChainActionLogged
    ]
}

/// The kinds of event in the order in which they are tried.
pub fn event_kinds() -> (r: Vec<EventKind>)
    ensures
        r@ == all_event_kinds(),
{
    let r = vec![
        EventKind::AdminProfileRegistered,
        EventKind::AdminCommKeyUpdated,
        EventKind::AdminPricesUpdated,
        EventKind::AdminFundsWithdrawn,
        EventKind::AdminProfileClosed,
        EventKind::AdminCommandDispatched,
        EventKind::UserProfileCreated,
        EventKind::UserCommKeyUpdated,
        EventKind::UserFundsDeposited,
        EventKind::UserFundsWithdrawn,
        EventKind::UserProfileClosed,
        EventKind::UserCommandDispatched,
        EventKind::OffChainActionLogged
    ];
    assert(r@ =~= all_event_kinds());
    r
}

/// The field kinds of each kind of event record, in order.
pub open spec fn event_schema(k: EventKind) -> Seq<FieldKind> {
    match k {
        EventKind::AdminProfileRegistered => seq![FieldKind::Key, FieldKind::Key, FieldKind::I64],
        EventKind::AdminCommKeyUpdated => seq![FieldKind::Key, FieldKind::Key, FieldKind::I64],
        EventKind::AdminPricesUpdated => seq![FieldKind::Key, FieldKind::Prices, FieldKind::I64],
        EventKind::AdminFundsWithdrawn => seq![FieldKind::Key, FieldKind::U64, FieldKind::Key, FieldKind::I64],
        EventKind::AdminProfileClosed => seq![FieldKind::Key, FieldKind::I64],
        EventKind::AdminCommandDispatched => seq![FieldKind::Key, FieldKind::Key, FieldKind::U64, FieldKind::Bytes, FieldKind::I64],
        EventKind::UserProfileCreated => seq![FieldKind::Key, FieldKind::Key, FieldKind::Key, FieldKind::I64],
        EventKind::UserCommKeyUpdated => seq![FieldKind::Key, FieldKind::Key, FieldKind::I64],
        EventKind::UserFundsDeposited => seq![FieldKind::Key, FieldKind::U64, FieldKind::U64, FieldKind::I64],
        EventKind::UserFundsWithdrawn => seq![FieldKind::Key, FieldKind::U64, FieldKind::Key, FieldKind::U64, FieldKind::I64],
        EventKind::UserProfileClosed => seq![FieldKind::Key, FieldKind::I64],
        EventKind::UserCommandDispatched => seq![FieldKind::Key, FieldKind::Key, FieldKind::U16, FieldKind::U64, FieldKind::Bytes, FieldKind::I64],
        EventKind::OffChainActionLogged => seq![FieldKind::Key, FieldKind::U64, FieldKind::U16, FieldKind::I64],
    }
}

/// The field kinds of each kind of event record, in order.
pub fn schema_of(k: EventKind) -> (r: Vec<FieldKind>)
    ensures
        r@ == event_schema(k),
{
    let r = match k {
        EventKind::AdminProfileRegistered => vec![FieldKind::Key, FieldKind::Key, FieldKind::I64],
        EventKind::AdminCommKeyUpdated => vec![FieldKind::Key, FieldKind::Key, FieldKind::I64],
        EventKind::AdminPricesUpdated => vec![FieldKind::Key, FieldKind::Prices, FieldKind::I64],
        EventKind::AdminFundsWithdrawn => vec![FieldKind::Key, FieldKind::U64, FieldKind::Key, FieldKind::I64],
        EventKind::AdminProfileClosed => vec![FieldKind::Key, FieldKind::I64],
        EventKind::AdminCommandDispatched => vec![FieldKind::Key, FieldKind::Key, FieldKind::U64, FieldKind::Bytes, FieldKind::I64],
        EventKind::UserProfileCreated => vec![FieldKind::Key, FieldKind::Key, FieldKind::Key, FieldKind::I64],
        EventKind::UserCommKeyUpdated => vec![FieldKind::Key, FieldKind::Key, FieldKind::I64],
        EventKind::UserFundsDeposited => vec![FieldKind::Key, FieldKind::U64, FieldKind::U64, FieldKind::I64],
        EventKind::UserFundsWithdrawn => vec![FieldKind::Key, FieldKind::U64, FieldKind::Key, FieldKind::U64, FieldKind::I64],
        EventKind::UserProfileClosed => vec![FieldKind::Key, FieldKind::I64],
        EventKind::UserCommandDispatched => vec![FieldKind::Key, FieldKind::Key, FieldKind::U16, FieldKind::U64, FieldKind::Bytes, FieldKind::I64],
        EventKind::OffChainActionLogged => vec![FieldKind::Key, FieldKind::U64, FieldKind::U16, FieldKind::I64],
    };
    assert(r@ =~= event_schema(k));
    r
}

/// The text whose SHA-256 digest starts with the discriminator of each kind.
pub open spec fn event_label(k: EventKind) -> &'static str {
    match k {
        EventKind::AdminProfileRegistered => "event:AdminProfileRegistered",
        EventKind::AdminCommKeyUpdated => "event:AdminCommKeyUpdated",
        EventKind::AdminPricesUpdated => "event:AdminPricesUpdated",
        EventKind::AdminFundsWithdrawn => "event:AdminFundsWithdrawn",
        EventKind::AdminProfileClosed => "event:AdminProfileClosed",
        EventKind::AdminCommandDispatched => "event:AdminCommandDispatched",
        EventKind::UserProfileCreated => "event:UserProfileCreated",
        EventKind::UserCommKeyUpdated => "event:UserCommKeyUpdated",
        EventKind::UserFundsDeposited => "event:UserFundsDeposited",
        EventKind::UserFundsWithdrawn => "event:UserFundsWithdrawn",
        EventKind::UserProfileClosed => "event:UserProfileClosed",
        EventKind::UserCommandDispatched => "event:UserCommandDispatched",
        EventKind::OffChainActionLogged => "event:OffChainActionLogged",
    }
}

/// The text whose SHA-256 digest starts with the discriminator of each kind.
pub fn label_of(k: EventKind) -> (r: &'static str)
    ensures
        r == event_label(k),
{
    match k {
        EventKind::AdminProfileRegistered => "event:AdminProfileRegistered",
        EventKind::AdminCommKeyUpdated => "event:AdminCommKeyUpdated",
        EventKind::AdminPricesUpdated => "event:AdminPricesUpdated",
        EventKind::AdminFundsWithdrawn => "event:AdminFundsWithdrawn",
        EventKind::AdminProfileClosed => "event:AdminProfileClosed",
        EventKind::AdminCommandDispatched => "event:AdminCommandDispatched",
        EventKind::UserProfileCreated => "event:UserProfileCreated",
        EventKind::UserCommKeyUpdated => "event:UserCommKeyUpdated",
        EventKind::UserFundsDeposited => "event:UserFundsDeposited",
        EventKind::UserFundsWithdrawn => "event:UserFundsWithdrawn",
        EventKind::UserProfileClosed => "event:UserProfileClosed",
        EventKind::UserCommandDispatched => "event:UserCommandDispatched",
        EventKind::OffChainActionLogged => "event:OffChainActionLogged",
    }
}

} // verus!
