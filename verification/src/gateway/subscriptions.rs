//! The gateway's active event subscriptions: at most one stream per profile
//! address, each with the signal that stops it, held in a table that the
//! streams' tasks share.
use vstd::prelude::*;
use dashmap::DashMap;
use tokio::sync::watch;
use crate::pubkey::Pubkey;
use crate::tables::{stop_signal_addresses, stop_signals_insert, stop_signals_new, stop_signals_remove};

verus! {

/// Why a subscription was refused.
#[derive(Clone, Copy, Debug, PartialEq, Eq, Structural)]
pub enum SubscribeError {
    /// A stream for the address is already active.
    AlreadyExists,
}

/// A second subscription for an address is refused while the first is
/// active, and accepted again once the first has been ended: `subscribe`
/// fails exactly when the address is in the table, a successful or refused
/// subscription leaves it there, and `unsubscribe` takes it out.
pub proof fn lemma_one_stream_per_address(active: Set<Pubkey>, pda: Pubkey)
    ensures
        active.insert(pda).contains(pda),
        active.insert(pda).insert(pda).contains(pda),
        !active.insert(pda).remove(pda).contains(pda),
{
}

/// The stop signals of the active streams, keyed by profile address.
pub struct ActiveSubscriptions {
    streams: DashMap<Pubkey, watch::Sender<()>>,
}

impl ActiveSubscriptions {
    /// The addresses that have an active stream.
    pub closed spec fn view(&self) -> Set<Pubkey> {
        stop_signal_addresses(self.streams)
    }

    /// No active streams.
    pub fn new() -> (r: Self)
        ensures
            r@ == Set::<Pubkey>::empty(),
    {
        ActiveSubscriptions { streams: stop_signals_new() }
    }

    /// Records a new stream for the address; the request is refused when a
    /// stream for the address was already active. The table's `insert` puts
    /// the new stop signal in place of any earlier one, so a refused request
    /// still replaces the running stream's stop signal: dropping that signal
    /// ends the running stream, and after a refusal no stream for the address
    /// is left running.
    pub fn subscribe(&mut self, pda: Pubkey, stop: watch::Sender<()>) -> (r: Result<(), SubscribeError>)
        ensures
            final(self)@ == old(self)@.insert(pda),
            r is Err <==> old(self)@.contains(pda),
            r is Err ==> r == Err::<(), SubscribeError>(SubscribeError::AlreadyExists),
    {
        match stop_signals_insert(&mut self.streams, pda, stop) {
            Some(_) => Err(SubscribeError::AlreadyExists),
            None => Ok(()),
        }
    }

    /// Ends the stream of the address and returns its stop signal, if one was
    /// active.
    pub fn unsubscribe(&mut self, pda: &Pubkey) -> (r: Option<watch::Sender<()>>)
        ensures
            final(self)@ == old(self)@.remove(*pda),
            r is Some <==> old(self)@.contains(*pda),
    {
        match stop_signals_remove(&mut self.streams, pda) {
            Some((_, v)) => Some(v),
            None => None,
        }
    }
}

} // verus!
