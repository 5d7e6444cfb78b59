//! The event messages the gateway streams to its clients: each event of the
//! bridge program with its addresses written in base58 and its small integers
//! widened to `u32`.
use vstd::prelude::*;
use crate::pubkey::Pubkey;
use crate::program::state::PriceEntry;
use crate::connector::events::BridgeEvent;
use crate::runtime::{base58_string, spec_base58, spec_parse_pubkey};
use crate::pubkey::lemma_bytes_determine_key;

verus! {

/// A price list entry as streamed.
#[derive(Clone, Copy, Debug, PartialEq, Eq, Structural)]
pub struct PriceEntryMessage {
    pub command_id: u32,
    pub price: u64,
}

/// The body of a streamed event.
#[derive(Clone, Debug)]
pub enum EventMessage {
    AdminProfileRegistered {
        authority: String,
        communication_pubkey: String,
        ts: i64,
    },
    AdminCommKeyUpdated {
        authority: String,
        new_comm_pubkey: String,
        ts: i64,
    },
    AdminPricesUpdated {
        authority: String,
        new_prices: Vec<PriceEntryMessage>,
        ts: i64,
    },
    AdminFundsWithdrawn {
        authority: String,
        amount: u64,
        destination: String,
        ts: i64,
    },
    AdminProfileClosed {
        authority: String,
        ts: i64,
    },
    AdminCommandDispatched {
        sender: String,
        target_user_authority: String,
        command_id: u32,
        payload: Vec<u8>,
        ts: i64,
    },
    UserProfileCreated {
        authority: String,
        target_admin: String,
        communication_pubkey: String,
        ts: i64,
    },
    UserCommKeyUpdated {
        authority: String,
        new_comm_pubkey: String,
        ts: i64,
    },
    UserFundsDeposited {
        authority: String,
        amount: u64,
        new_deposit_balance: u64,
        ts: i64,
    },
    UserFundsWithdrawn {
        authority: String,
        amount: u64,
        destination: String,
        new_deposit_balance: u64,
        ts: i64,
    },
    UserProfileClosed {
        authority: String,
        ts: i64,
    },
    UserCommandDispatched {
        sender: String,
        target_admin_authority: String,
        command_id: u32,
        price_paid: u64,
        payload: Vec<u8>,
        ts: i64,
    },
    OffChainActionLogged {
        actor: String,
        session_id: u64,
        action_code: u32,
        ts: i64,
    },
}

/// A streamed event; an unknown event has no body.
#[derive(Clone, Debug)]
pub struct GatewayEvent {
    pub event: Option<EventMessage>,
}

/// The base58 text of an address.
pub open spec fn key_text(k: Pubkey) -> Seq<char> {
    spec_base58(k.bytes())
}

/// The address a base58 text names, as `Pubkey::from_str` reads it.
pub open spec fn key_of_text(t: Seq<char>) -> Option<Pubkey> {
    match spec_parse_pubkey(t) {
        Some(b) => Some(Pubkey::spec_from_bytes(b)),
        None => None,
    }
}

/// The base58 text of an address; it reads back as the same address.
pub fn key_string(k: &Pubkey) -> (r: String)
    ensures
        r@ == key_text(*k),
        key_of_text(r@) == Some(*k),
{
    proof {
        lemma_bytes_determine_key(*k);
    }
    base58_string(&k.to_vec())
}

/// The streamed form of a price list.
pub open spec fn prices_converted(ps: Seq<PriceEntry>, ms: Seq<PriceEntryMessage>) -> bool {
    &&& ms.len() == ps.len()
    &&& forall|i: int|
        0 <= i < ps.len() ==> (#[trigger] ms[i]).command_id == ps[i].command_id as u32 && ms[i].price
            == ps[i].price
}

/// The streamed form of a price list.
fn convert_prices(ps: &Vec<PriceEntry>) -> (r: Vec<PriceEntryMessage>)
    ensures
        prices_converted(ps@, r@),
{
    let mut out: Vec<PriceEntryMessage> = Vec::new();
    let mut i: usize = 0;
    while i < ps.len()
        invariant
            i <= ps@.len(),
            out@.len() == i,
            forall|j: int|
                0 <= j < i ==> (#[trigger] out@[j]).command_id == ps@[j].command_id as u32
                    && out@[j].price == ps@[j].price,
        decreases ps@.len() - i,
    {
        let p = ps[i];
        out.push(PriceEntryMessage { command_id: p.command_id as u32, price: p.price });
        i = i + 1;
    }
    out
}

/// `m` is the streamed form of `e`.
pub open spec fn converted(e: BridgeEvent, m: GatewayEvent) -> bool {
    match e {
        BridgeEvent::AdminProfileRegistered(x) => m.event matches Some(EventMessage::AdminProfileRegistered { authority, communication_pubkey, ts }) && authority@ == key_text(x.authority) && communication_pubkey@ == key_text(x.communication_pubkey) && ts == x.ts,
        BridgeEvent::AdminCommKeyUpdated(x) => m.event matches Some(EventMessage::AdminCommKeyUpdated { authority, new_comm_pubkey, ts }) && authority@ == key_text(x.authority) && new_comm_pubkey@ == key_text(x.new_comm_pubkey) && ts == x.ts,
        BridgeEvent::AdminPricesUpdated(x) => m.event matches Some(EventMessage::AdminPricesUpdated { authority, new_prices, ts }) && authority@ == key_text(x.authority) && prices_converted(x.new_prices@, new_prices@) && ts == x.ts,
        BridgeEvent::AdminFundsWithdrawn(x) => m.event matches Some(EventMessage::AdminFundsWithdrawn { authority, amount, destination, ts }) && authority@ == key_text(x.authority) && amount == x.amount && destination@ == key_text(x.destination) && ts == x.ts,
        BridgeEvent::AdminProfileClosed(x) => m.event matches Some(EventMessage::AdminProfileClosed { authority, ts }) && authority@ == key_text(x.authority) && ts == x.ts,
        BridgeEvent::AdminCommandDispatched(x) => m.event matches Some(EventMessage::AdminCommandDispatched { sender, target_user_authority, command_id, payload, ts }) && sender@ == key_text(x.sender) && target_user_authority@ == key_text(x.target_user_authority) && command_id == x.command_id as u32 && payload@ == x.payload@ && ts == x.ts,
        BridgeEvent::UserProfileCreated(x) => m.event matches Some(EventMessage::UserProfileCreated { authority, target_admin, communication_pubkey, ts }) && authority@ == key_text(x.authority) && target_admin@ == key_text(x.target_admin) && communication_pubkey@ == key_text(x.communication_pubkey) && ts == x.ts,
        BridgeEvent::UserCommKeyUpdated(x) => m.event matches Some(EventMessage::UserCommKeyUpdated { authority, new_comm_pubkey, ts }) && authority@ == key_text(x.authority) && new_comm_pubkey@ == key_text(x.new_comm_pubkey) && ts == x.ts,
        BridgeEvent::UserFundsDeposited(x) => m.event matches Some(EventMessage::UserFundsDeposited { authority, amount, new_deposit_balance, ts }) && authority@ == key_text(x.authority) && amount == x.amount && new_deposit_balance == x.new_deposit_balance && ts == x.ts,
        BridgeEvent::UserFundsWithdrawn(x) => m.event matches Some(EventMessage::UserFundsWithdrawn { authority, amount, destination, new_deposit_balance, ts }) && authority@ == key_text(x.authority) && amount == x.amount && destination@ == key_text(x.destination) && new_deposit_balance == x.new_deposit_balance && ts == x.ts,
        BridgeEvent::UserProfileClosed(x) => m.event matches Some(EventMessage::UserProfileClosed { authority, ts }) && authority@ == key_text(x.authority) && ts == x.ts,
        BridgeEvent::UserCommandDispatched(x) => m.event matches Some(EventMessage::UserCommandDispatched { sender, target_admin_authority, command_id, price_paid, payload, ts }) && sender@ == key_text(x.sender) && target_admin_authority@ == key_text(x.target_admin_authority) && command_id == x.command_id as u32 && price_paid == x.price_paid && payload@ == x.payload@ && ts == x.ts,
        BridgeEvent::OffChainActionLogged(x) => m.event matches Some(EventMessage::OffChainActionLogged { actor, session_id, action_code, ts }) && actor@ == key_text(x.actor) && session_id == x.session_id && action_code == x.action_code as u32 && ts == x.ts,
        BridgeEvent::Unknown => m.event is None,
    }
}

/// Each field of a streamed message carries the field of the same name of
/// the event: numbers unchanged (widened where the message's type is wider),
/// addresses as their base58 text, payloads and price lists entry for entry;
/// an unknown event is streamed without a body.
pub proof fn lemma_streamed_fields_carry_the_event(e: BridgeEvent, m: GatewayEvent)
    requires
        converted(e, m),
    ensures
        e matches BridgeEvent::AdminProfileRegistered(x) ==> (m.event matches Some(EventMessage::AdminProfileRegistered { authority, communication_pubkey, ts }) && authority@ == spec_base58(x.authority.bytes()) && communication_pubkey@ == spec_base58(x.communication_pubkey.bytes()) && ts == x.ts),
        e matches BridgeEvent::AdminCommKeyUpdated(x) ==> (m.event matches Some(EventMessage::AdminCommKeyUpdated { authority, new_comm_pubkey, ts }) && authority@ == spec_base58(x.authority.bytes()) && new_comm_pubkey@ == spec_base58(x.new_comm_pubkey.bytes()) && ts == x.ts),
        e matches BridgeEvent::AdminPricesUpdated(x) ==> (m.event matches Some(EventMessage::AdminPricesUpdated { authority, new_prices, ts }) && authority@ == spec_base58(x.authority.bytes()) && new_prices@.len() == x.new_prices@.len() && (forall|k: int| 0 <= k < x.new_prices@.len() ==> (#[trigger] new_prices@[k]).command_id == x.new_prices@[k].command_id as u32 && new_prices@[k].price == x.new_prices@[k].price) && ts == x.ts),
        e matches BridgeEvent::AdminFundsWithdrawn(x) ==> (m.event matches Some(EventMessage::AdminFundsWithdrawn { authority, amount, destination, ts }) && authority@ == spec_base58(x.authority.bytes()) && amount == x.amount && destination@ == spec_base58(x.destination.bytes()) && ts == x.ts),
        e matches BridgeEvent::AdminProfileClosed(x) ==> (m.event matches Some(EventMessage::AdminProfileClosed { authority, ts }) && authority@ == spec_base58(x.authority.bytes()) && ts == x.ts),
        e matches BridgeEvent::AdminCommandDispatched(x) ==> (m.event matches Some(EventMessage::AdminCommandDispatched { sender, target_user_authority, command_id, payload, ts }) && sender@ == spec_base58(x.sender.bytes()) && target_user_authority@ == spec_base58(x.target_user_authority.bytes()) && command_id == x.command_id as u32 && payload@ == x.payload@ && ts == x.ts),
        e matches BridgeEvent::UserProfileCreated(x) ==> (m.event matches Some(EventMessage::UserProfileCreated { authority, target_admin, communication_pubkey, ts }) && authority@ == spec_base58(x.authority.bytes()) && target_admin@ == spec_base58(x.target_admin.bytes()) && communication_pubkey@ == spec_base58(x.communication_pubkey.bytes()) && ts == x.ts),
        e matches BridgeEvent::UserCommKeyUpdated(x) ==> (m.event matches Some(EventMessage::UserCommKeyUpdated { authority, new_comm_pubkey, ts }) && authority@ == spec_base58(x.authority.bytes()) && new_comm_pubkey@ == spec_base58(x.new_comm_pubkey.bytes()) && ts == x.ts),
        e matches BridgeEvent::UserFundsDeposited(x) ==> (m.event matches Some(EventMessage::UserFundsDeposited { authority, amount, new_deposit_balance, ts }) && authority@ == spec_base58(x.authority.bytes()) && amount == x.amount && new_deposit_balance == x.new_deposit_balance && ts == x.ts),
        e matches BridgeEvent::UserFundsWithdrawn(x) ==> (m.event matches Some(EventMessage::UserFundsWithdrawn { authority, amount, destination, new_deposit_balance, ts }) && authority@ == spec_base58(x.authority.bytes()) && amount == x.amount && destination@ == spec_base58(x.destination.bytes()) && new_deposit_balance == x.new_deposit_balance && ts == x.ts),
        e matches BridgeEvent::UserProfileClosed(x) ==> (m.event matches Some(EventMessage::UserProfileClosed { authority, ts }) && authority@ == spec_base58(x.authority.bytes()) && ts == x.ts),
        e matches BridgeEvent::UserCommandDispatched(x) ==> (m.event matches Some(EventMessage::UserCommandDispatched { sender, target_admin_authority, command_id, price_paid, payload, ts }) && sender@ == spec_base58(x.sender.bytes()) && target_admin_authority@ == spec_base58(x.target_admin_authority.bytes()) && command_id == x.command_id as u32 && price_paid == x.price_paid && payload@ == x.payload@ && ts == x.ts),
        e matches BridgeEvent::OffChainActionLogged(x) ==> (m.event matches Some(EventMessage::OffChainActionLogged { actor, session_id, action_code, ts }) && actor@ == spec_base58(x.actor.bytes()) && session_id == x.session_id && action_code == x.action_code as u32 && ts == x.ts),
        e is Unknown ==> m.event is None,
{
}

/// The addresses an event carries, in field order.
pub open spec fn event_keys(e: BridgeEvent) -> Seq<Pubkey> {
    match e {
        BridgeEvent::AdminProfileRegistered(x) => seq![x.authority, x.communication_pubkey],
        BridgeEvent::AdminCommKeyUpdated(x) => seq![x.authority, x.new_comm_pubkey],
        BridgeEvent::AdminPricesUpdated(x) => seq![x.authority],
        BridgeEvent::AdminFundsWithdrawn(x) => seq![x.authority, x.destination],
        BridgeEvent::AdminProfileClosed(x) => seq![x.authority],
        BridgeEvent::AdminCommandDispatched(x) => seq![x.sender, x.target_user_authority],
        BridgeEvent::UserProfileCreated(x) => seq![x.authority, x.target_admin, x.communication_pubkey],
        BridgeEvent::UserCommKeyUpdated(x) => seq![x.authority, x.new_comm_pubkey],
        BridgeEvent::UserFundsDeposited(x) => seq![x.authority],
        BridgeEvent::UserFundsWithdrawn(x) => seq![x.authority, x.destination],
        BridgeEvent::UserProfileClosed(x) => seq![x.authority],
        BridgeEvent::UserCommandDispatched(x) => seq![x.sender, x.target_admin_authority],
        BridgeEvent::OffChainActionLogged(x) => seq![x.actor],
        BridgeEvent::Unknown => Seq::empty(),
    }
}

/// The streamed form of an event.
pub fn gateway_event_from(e: &BridgeEvent) -> (r: GatewayEvent)
    ensures
        converted(*e, r),
        forall|i: int|
            0 <= i < event_keys(*e).len() ==> key_of_text(key_text(#[trigger] event_keys(*e)[i]))
                == Some(event_keys(*e)[i]),
{
    let event = match e {
        BridgeEvent::AdminProfileRegistered(x) => Some(EventMessage::AdminProfileRegistered {
            authority: key_string(&x.authority),
            communication_pubkey: key_string(&x.communication_pubkey),
            ts: x.ts,
        }),
        BridgeEvent::AdminCommKeyUpdated(x) => Some(EventMessage::AdminCommKeyUpdated {
            authority: key_string(&x.authority),
            new_comm_pubkey: key_string(&x.new_comm_pubkey),
            ts: x.ts,
        }),
        BridgeEvent::AdminPricesUpdated(x) => Some(EventMessage::AdminPricesUpdated {
            authority: key_string(&x.authority),
            new_prices: convert_prices(&x.new_prices),
            ts: x.ts,
        }),
        BridgeEvent::AdminFundsWithdrawn(x) => Some(EventMessage::AdminFundsWithdrawn {
            authority: key_string(&x.authority),
            amount: x.amount,
            destination: key_string(&x.destination),
            ts: x.ts,
        }),
        BridgeEvent::AdminProfileClosed(x) => Some(EventMessage::AdminProfileClosed {
            authority: key_string(&x.authority),
            ts: x.ts,
        }),
        BridgeEvent::AdminCommandDispatched(x) => Some(EventMessage::AdminCommandDispatched {
            sender: key_string(&x.sender),
            target_user_authority: key_string(&x.target_user_authority),
            command_id: x.command_id as u32,
            payload: x.payload.clone(),
            ts: x.ts,
        }),
        BridgeEvent::UserProfileCreated(x) => Some(EventMessage::UserProfileCreated {
            authority: key_string(&x.authority),
            target_admin: key_string(&x.target_admin),
            communication_pubkey: key_string(&x.communication_pubkey),
            ts: x.ts,
        }),
        BridgeEvent::UserCommKeyUpdated(x) => Some(EventMessage::UserCommKeyUpdated {
            authority: key_string(&x.authority),
            new_comm_pubkey: key_string(&x.new_comm_pubkey),
            ts: x.ts,
        }),
        BridgeEvent::UserFundsDeposited(x) => Some(EventMessage::UserFundsDeposited {
            authority: key_string(&x.authority),
            amount: x.amount,
            new_deposit_balance: x.new_deposit_balance,
            ts: x.ts,
        }),
        BridgeEvent::UserFundsWithdrawn(x) => Some(EventMessage::UserFundsWithdrawn {
            authority: key_string(&x.authority),
            amount: x.amount,
            destination: key_string(&x.destination),
            new_deposit_balance: x.new_deposit_balance,
            ts: x.ts,
        }),
        BridgeEvent::UserProfileClosed(x) => Some(EventMessage::UserProfileClosed {
            authority: key_string(&x.authority),
            ts: x.ts,
        }),
        BridgeEvent::UserCommandDispatched(x) => Some(EventMessage::UserCommandDispatched {
            sender: key_string(&x.sender),
            target_admin_authority: key_string(&x.target_admin_authority),
            command_id: x.command_id as u32,
            price_paid: x.price_paid,
            payload: x.payload.clone(),
            ts: x.ts,
        }),
        BridgeEvent::OffChainActionLogged(x) => Some(EventMessage::OffChainActionLogged {
            actor: key_string(&x.actor),
            session_id: x.session_id,
            action_code: x.action_code as u32,
            ts: x.ts,
        }),
        BridgeEvent::Unknown => None,
    };
    GatewayEvent { event }
}

} // verus!
