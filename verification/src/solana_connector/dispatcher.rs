//! The dispatcher's decisions: which listeners an event goes to, and how a
//! command changes the set of listeners. The worker that owns the channels
//! sends the events and reports the listeners that have gone away.
use vstd::prelude::*;
use crate::pubkey::Pubkey;
use crate::connector::pda::{event_pdas, extract_pdas_from_event, lemma_event_concerns, spec_admin_pda};
use crate::connector::events::BridgeEvent as ProgramEvent;
use crate::connector::registry::Registry;
use crate::solana_connector::events::{BridgeEvent, EventSource};

verus! {

/// A command to the dispatcher.
pub enum DispatcherCommand<V> {
    /// Start sending the events that concern the address to the listener.
    Register(Pubkey, V),
    /// Stop sending events for the address.
    Unregister(Pubkey),
    /// Route an event.
    Dispatch(BridgeEvent),
    /// Stop the dispatcher.
    Shutdown,
}

/// The two channels of a listener: live events and catch-up events.
pub struct ListenerChannels<C> {
    pub live: C,
    pub catchup: C,
}

impl<C> ListenerChannels<C> {
    /// The channel an event goes to: the live channel for an event read from
    /// the live stream, the catch-up channel for one read during catch-up.
    pub fn channel_for(&self, source: EventSource) -> (r: &C)
        ensures
            source == EventSource::Live ==> *r == self.live,
            source == EventSource::Catchup ==> *r == self.catchup,
    {
        match source {
            EventSource::Live => &self.live,
            EventSource::Catchup => &self.catchup,
        }
    }
}

/// What the worker does after a command.
pub enum CommandAction {
    /// Wait for the next event or command.
    Continue,
    /// Put the event on the dispatcher's event queue; if the queue is closed,
    /// stop.
    Forward(BridgeEvent),
    /// Stop.
    Stop,
}

/// The listeners of a dispatcher, keyed by the profile address they follow.
pub struct Dispatcher<V> {
    listeners: Registry<V>,
}

/// The addresses of `s` that have a listener, in order.
pub open spec fn registered<V>(s: Seq<Pubkey>, m: Map<Pubkey, V>) -> Seq<Pubkey>
    decreases s.len(),
{
    if s.len() == 0 {
        Seq::empty()
    } else {
        let rest = registered(s.drop_last(), m);
        if m.contains_key(s.last()) {
            rest.push(s.last())
        } else {
            rest
        }
    }
}

/// The listed addresses are those of `s` that have a listener.
proof fn lemma_registered_members<V>(s: Seq<Pubkey>, m: Map<Pubkey, V>, k: Pubkey)
    ensures
        registered(s, m).contains(k) <==> (s.contains(k) && m.contains_key(k)),
    decreases s.len(),
{
    if s.len() > 0 {
        let t = s.drop_last();
        lemma_registered_members(t, m, k);
        if s.contains(k) && k != s.last() {
            let j = choose|j: int| 0 <= j < s.len() && s[j] == k;
            assert(t[j] == k);
        }
        if t.contains(k) {
            let j = choose|j: int| 0 <= j < t.len() && t[j] == k;
            assert(s[j] == k);
        }
        if k == s.last() {
            assert(s[s.len() - 1] == k);
        }
        let rest = registered(t, m);
        if m.contains_key(s.last()) {
            assert(rest.push(s.last())[rest.len() as int] == s.last());
            if rest.contains(k) {
                let j = choose|j: int| 0 <= j < rest.len() && rest[j] == k;
                assert(rest.push(s.last())[j] == k);
            }
            if rest.push(s.last()).contains(k) && k != s.last() {
                let j = choose|j: int| 0 <= j < rest.len() + 1 && rest.push(s.last())[j] == k;
                assert(rest[j] == k);
            }
        }
    }
}

/// After an address is registered, every event that concerns it is sent to
/// its listener.
pub proof fn lemma_registered_listener_receives<V>(m: Map<Pubkey, V>, k: Pubkey, v: V, e: BridgeEvent)
    requires
        event_pdas(e.data).contains(k),
    ensures
        registered(event_pdas(e.data), m.insert(k, v)).contains(k),
{
    lemma_registered_members(event_pdas(e.data), m.insert(k, v), k);
}

/// An admin's own event (registration, key update, price update, withdrawal,
/// closing) is sent to the listener of the admin's profile, the address
/// derived from the event's authority, whenever one is registered.
pub proof fn lemma_admin_listener_receives_admin_events<V>(m: Map<Pubkey, V>, e: BridgeEvent, k: Pubkey)
    requires
        m.contains_key(k),
        match e.data {
            ProgramEvent::AdminProfileRegistered(x) => spec_admin_pda(x.authority) == Some(k),
            ProgramEvent::AdminCommKeyUpdated(x) => spec_admin_pda(x.authority) == Some(k),
            ProgramEvent::AdminPricesUpdated(x) => spec_admin_pda(x.authority) == Some(k),
            ProgramEvent::AdminFundsWithdrawn(x) => spec_admin_pda(x.authority) == Some(k),
            ProgramEvent::AdminProfileClosed(x) => spec_admin_pda(x.authority) == Some(k),
            _ => false,
        },
    ensures
        registered(event_pdas(e.data), m).contains(k),
{
    lemma_event_concerns(e.data);
    assert(event_pdas(e.data).contains(k));
    lemma_registered_members(event_pdas(e.data), m, k);
}

/// After an address is unregistered, no event is sent to it.
pub proof fn lemma_unregistered_listener_receives_nothing<V>(m: Map<Pubkey, V>, k: Pubkey, e: BridgeEvent)
    ensures
        !registered(event_pdas(e.data), m.remove(k)).contains(k),
{
    lemma_registered_members(event_pdas(e.data), m.remove(k), k);
}

/// An event is sent only to addresses it concerns that have a listener.
pub proof fn lemma_targets_are_registered_and_concerned<V>(m: Map<Pubkey, V>, e: BridgeEvent, k: Pubkey)
    ensures
        registered(event_pdas(e.data), m).contains(k) ==> event_pdas(e.data).contains(k)
            && m.contains_key(k),
{
    lemma_registered_members(event_pdas(e.data), m, k);
}

impl<V> Dispatcher<V> {
    /// The listeners are held consistently.
    pub open spec fn wf(&self) -> bool {
        self.listeners().wf()
    }

    /// The registry of listeners.
    pub closed spec fn listeners(&self) -> Registry<V> {
        self.listeners
    }

    /// The listener of each followed address.
    pub open spec fn view(&self) -> Map<Pubkey, V> {
        self.listeners()@
    }

    /// A dispatcher without listeners.
    pub fn new() -> (r: Self)
        ensures
            r.wf(),
            r@ == Map::<Pubkey, V>::empty(),
    {
        Dispatcher { listeners: Registry::new() }
    }

    /// Applies a command: a registration replaces the listener of its address,
    /// an unregistration drops it, an event is forwarded to the event queue and
    /// a shutdown stops the dispatcher.
    pub fn handle_command(&mut self, command: DispatcherCommand<V>) -> (a: CommandAction)
        requires
            old(self).wf(),
        ensures
            final(self).wf(),
            match command {
                DispatcherCommand::Register(k, v) => final(self)@ == old(self)@.insert(k, v)
                    && a is Continue,
                DispatcherCommand::Unregister(k) => final(self)@ == old(self)@.remove(k)
                    && a is Continue,
                DispatcherCommand::Dispatch(e) => final(self)@ == old(self)@ && a == CommandAction::Forward(e),
                DispatcherCommand::Shutdown => final(self)@ == old(self)@ && a is Stop,
            },
    {
        match command {
            DispatcherCommand::Register(k, v) => {
                self.listeners.insert(k, v);
                CommandAction::Continue
            },
            DispatcherCommand::Unregister(k) => {
                self.listeners.remove(&k);
                CommandAction::Continue
            },
            DispatcherCommand::Dispatch(e) => CommandAction::Forward(e),
            DispatcherCommand::Shutdown => CommandAction::Stop,
        }
    }

    /// The addresses whose listeners receive the event: those among the
    /// profiles the event concerns that have a listener, in order. The worker
    /// sends the event to each on its live or catch-up channel, by the event's
    /// source.
    pub fn event_targets(&self, event: &BridgeEvent) -> (r: Vec<Pubkey>)
        requires
            self.wf(),
        ensures
            r@ == registered(event_pdas(event.data), self@),
    {
        let pdas = extract_pdas_from_event(&event.data);
        let mut out: Vec<Pubkey> = Vec::new();
        let mut i: usize = 0;
        while i < pdas.len()
            invariant
                self.wf(),
                i <= pdas@.len(),
                out@ == registered(pdas@.take(i as int), self@),
            decreases pdas@.len() - i,
        {
            assert(pdas@.take(i + 1).drop_last() =~= pdas@.take(i as int));
            let k = pdas[i];
            if self.listeners.contains_key(&k) {
                out.push(k);
            }
            i = i + 1;
        }
        assert(pdas@.take(pdas@.len() as int) =~= pdas@);
        out
    }

    /// The listener of an address.
    pub fn listener(&self, k: &Pubkey) -> (r: Option<&V>)
        requires
            self.wf(),
        ensures
            match r {
                Some(v) => self@.contains_key(*k) && *v == self@[*k],
                None => !self@.contains_key(*k),
            },
    {
        self.listeners.get(k)
    }

    /// Drops the listeners that could not be reached.
    pub fn remove_disconnected(&mut self, gone: &Vec<Pubkey>)
        requires
            old(self).wf(),
        ensures
            final(self).wf(),
            final(self)@ == old(self)@.remove_keys(gone@.to_set()),
    {
        let mut i: usize = 0;
        while i < gone.len()
            invariant
                self.wf(),
                i <= gone@.len(),
                self@ == old(self)@.remove_keys(gone@.take(i as int).to_set()),
            decreases gone@.len() - i,
        {
            let ghost before = self@;
            self.listeners.remove(&gone[i]);
            proof {
                let s0 = gone@.take(i as int);
                let s1 = gone@.take(i + 1);
                assert forall|a: Pubkey| #[trigger] s1.contains(a) == (s0.contains(a) || a == gone@[i as int]) by {
                    if s1.contains(a) {
                        let j = choose|j: int| 0 <= j < s1.len() && s1[j] == a;
                        if j < i {
                            assert(s0[j] == a);
                        }
                    }
                    if s0.contains(a) {
                        let j = choose|j: int| 0 <= j < s0.len() && s0[j] == a;
                        assert(s1[j] == a);
                    }
                    if a == gone@[i as int] {
                        assert(s1[i as int] == a);
                    }
                }
                assert(s1.to_set() =~= s0.to_set().insert(gone@[i as int]));
            }
            assert(self@ =~= old(self)@.remove_keys(gone@.take(i + 1).to_set()));
            i = i + 1;
        }
        assert(gone@.take(gone@.len() as int) =~= gone@);
    }
}

} // verus!
