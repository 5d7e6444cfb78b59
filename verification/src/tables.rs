//! The tables that the connector's user listeners and the gateway share with
//! their tasks: `dashmap::DashMap`s keyed by profile address, holding the
//! sending ends of tokio channels. The library follows which addresses a
//! table holds; the senders are carried through without being read.
use vstd::prelude::*;
use dashmap::DashMap;
use tokio::sync::{mpsc, watch};
use crate::pubkey::Pubkey;
use crate::connector::events::BridgeEvent;

verus! {

#[verifier::external_type_specification]
#[verifier::external_body]
#[verifier::reject_recursive_types(K)]
#[verifier::reject_recursive_types(V)]
#[verifier::reject_recursive_types(S)]
pub struct ExDashMap<K, V, S>(DashMap<K, V, S>);

#[verifier::external_type_specification]
#[verifier::external_body]
#[verifier::reject_recursive_types(T)]
pub struct ExWatchSender<T>(watch::Sender<T>);

#[verifier::external_type_specification]
#[verifier::external_body]
#[verifier::reject_recursive_types(T)]
pub struct ExMpscSender<T>(mpsc::Sender<T>);

/// The addresses that a table of stop signals holds an entry for.
pub uninterp spec fn stop_signal_addresses(m: DashMap<Pubkey, watch::Sender<()>>) -> Set<Pubkey>;

/// The addresses that a table of service listeners holds an entry for.
pub uninterp spec fn service_addresses(m: DashMap<Pubkey, mpsc::Sender<BridgeEvent>>) -> Set<Pubkey>;

/// Calls `DashMap::new`: an empty table.
#[verifier::external_body]
pub(crate) fn stop_signals_new() -> (r: DashMap<Pubkey, watch::Sender<()>>)
    ensures
        stop_signal_addresses(r) == Set::<Pubkey>::empty(),
{
    DashMap::new()
}

/// Calls `DashMap::insert`: the address gets an entry holding `v`, in place
/// of any earlier one, which is returned.
#[verifier::external_body]
pub(crate) fn stop_signals_insert(
    m: &mut DashMap<Pubkey, watch::Sender<()>>,
    k: Pubkey,
    v: watch::Sender<()>,
) -> (r: Option<watch::Sender<()>>)
    ensures
        stop_signal_addresses(*final(m)) == stop_signal_addresses(*old(m)).insert(k),
        r is Some <==> stop_signal_addresses(*old(m)).contains(k),
{
    m.insert(k, v)
}

/// Calls `DashMap::remove`: the entry of the address is taken out and
/// returned with its key, if there was one.
#[verifier::external_body]
pub(crate) fn stop_signals_remove(m: &mut DashMap<Pubkey, watch::Sender<()>>, k: &Pubkey) -> (r:
    Option<(Pubkey, watch::Sender<()>)>)
    ensures
        stop_signal_addresses(*final(m)) == stop_signal_addresses(*old(m)).remove(*k),
        r is Some <==> stop_signal_addresses(*old(m)).contains(*k),
        r matches Some(p) ==> p.0 == *k,
{
    m.remove(k)
}

/// Calls `DashMap::new`: an empty table.
#[verifier::external_body]
pub(crate) fn services_new() -> (r: DashMap<Pubkey, mpsc::Sender<BridgeEvent>>)
    ensures
        service_addresses(r) == Set::<Pubkey>::empty(),
{
    DashMap::new()
}

/// Calls `DashMap::insert`: the address gets an entry holding `v`, in place
/// of any earlier one, which is returned.
#[verifier::external_body]
pub(crate) fn services_insert(
    m: &mut DashMap<Pubkey, mpsc::Sender<BridgeEvent>>,
    k: Pubkey,
    v: mpsc::Sender<BridgeEvent>,
) -> (r: Option<mpsc::Sender<BridgeEvent>>)
    ensures
        service_addresses(*final(m)) == service_addresses(*old(m)).insert(k),
        r is Some <==> service_addresses(*old(m)).contains(k),
{
    m.insert(k, v)
}

/// Calls `DashMap::remove`: the entry of the address is taken out and
/// returned with its key, if there was one.
#[verifier::external_body]
pub(crate) fn services_remove(m: &mut DashMap<Pubkey, mpsc::Sender<BridgeEvent>>, k: &Pubkey) -> (r:
    Option<(Pubkey, mpsc::Sender<BridgeEvent>)>)
    ensures
        service_addresses(*final(m)) == service_addresses(*old(m)).remove(*k),
        r is Some <==> service_addresses(*old(m)).contains(*k),
        r matches Some(p) ==> p.0 == *k,
{
    m.remove(k)
}

/// Calls `DashMap::contains_key`: whether the address has an entry.
#[verifier::external_body]
pub(crate) fn services_contains(m: &DashMap<Pubkey, mpsc::Sender<BridgeEvent>>, k: &Pubkey) -> (r:
    bool)
    ensures
        r == service_addresses(*m).contains(*k),
{
    m.contains_key(k)
}

/// Calls `DashMap::get` and clones the sender that the entry holds: a handle
/// to the same channel, when the address has an entry.
#[verifier::external_body]
pub(crate) fn services_get(m: &DashMap<Pubkey, mpsc::Sender<BridgeEvent>>, k: &Pubkey) -> (r: Option<
    mpsc::Sender<BridgeEvent>,
>)
    ensures
        r is Some <==> service_addresses(*m).contains(*k),
{
    m.get(k).map(|entry| entry.value().clone())
}

} // verus!
