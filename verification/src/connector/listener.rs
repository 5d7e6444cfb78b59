//! How the contextual listeners sort the events they receive.
//!
//! A user's listener separates the user's own actions (deposits,
//! withdrawals, key updates, closing a profile, logged off-chain actions) from
//! the user's interactions with services (creating a profile for a service,
//! commands in either direction), and forwards an interaction also to the
//! listener the user opened for that service, if any. An admin's listener
//! separates the admin's own actions, the commands users send to this admin,
//! and the user profiles created for this admin.
use vstd::prelude::*;
use crate::pubkey::Pubkey;
use crate::connector::events::BridgeEvent;
use crate::connector::pda::{admin_pda, spec_admin_pda};
use dashmap::DashMap;
use tokio::sync::mpsc;
use crate::tables::{service_addresses, services_contains, services_get, services_insert, services_new, services_remove};

verus! {

/// Where a user's listener puts an event.
#[derive(Clone, Copy, Debug, PartialEq, Eq, Structural)]
pub enum UserRoute {
    /// The user's own action.
    Personal,
    /// An interaction of the user with a service.
    Interaction,
    /// Not the user's event.
    Ignored,
}

/// Where a user's listener puts an event.
pub open spec fn spec_user_route(user: Pubkey, e: BridgeEvent) -> UserRoute {
    match e {
        BridgeEvent::UserFundsDeposited(x) if x.authority == user => UserRoute::Personal,
        BridgeEvent::UserFundsWithdrawn(x) if x.authority == user => UserRoute::Personal,
        BridgeEvent::UserCommKeyUpdated(x) if x.authority == user => UserRoute::Personal,
        BridgeEvent::UserProfileClosed(x) if x.authority == user => UserRoute::Personal,
        BridgeEvent::OffChainActionLogged(x) if x.actor == user => UserRoute::Personal,
        BridgeEvent::UserProfileCreated(x) if x.authority == user => UserRoute::Interaction,
        BridgeEvent::UserCommandDispatched(x) if x.sender == user => UserRoute::Interaction,
        BridgeEvent::AdminCommandDispatched(x) if x.target_user_authority == user => UserRoute::Interaction,
        _ => UserRoute::Ignored,
    }
}

/// A user's listener puts the user's own actions (deposits, withdrawals, key
/// updates and closing of the user's profile, and off-chain actions the user
/// logged) on the personal stream; the user's interactions with services
/// (a profile the user created, a command the user sent, a command sent to
/// the user) on the interaction stream; and every other event nowhere.
pub proof fn lemma_user_route_sorts_by_party(user: Pubkey, e: BridgeEvent)
    ensures
        e matches BridgeEvent::UserFundsDeposited(x) ==> (spec_user_route(user, e)
            == UserRoute::Personal <==> x.authority == user),
        e matches BridgeEvent::UserFundsWithdrawn(x) ==> (spec_user_route(user, e)
            == UserRoute::Personal <==> x.authority == user),
        e matches BridgeEvent::UserCommKeyUpdated(x) ==> (spec_user_route(user, e)
            == UserRoute::Personal <==> x.authority == user),
        e matches BridgeEvent::UserProfileClosed(x) ==> (spec_user_route(user, e)
            == UserRoute::Personal <==> x.authority == user),
        e matches BridgeEvent::OffChainActionLogged(x) ==> (spec_user_route(user, e)
            == UserRoute::Personal <==> x.actor == user),
        e matches BridgeEvent::UserProfileCreated(x) ==> (spec_user_route(user, e)
            == UserRoute::Interaction <==> x.authority == user),
        e matches BridgeEvent::UserCommandDispatched(x) ==> (spec_user_route(user, e)
            == UserRoute::Interaction <==> x.sender == user),
        e matches BridgeEvent::AdminCommandDispatched(x) ==> (spec_user_route(user, e)
            == UserRoute::Interaction <==> x.target_user_authority == user),
        spec_user_route(user, e) == UserRoute::Personal ==> (e is UserFundsDeposited
            || e is UserFundsWithdrawn || e is UserCommKeyUpdated || e is UserProfileClosed
            || e is OffChainActionLogged),
        spec_user_route(user, e) == UserRoute::Interaction ==> (e is UserProfileCreated
            || e is UserCommandDispatched || e is AdminCommandDispatched),
{
}

/// Where a user's listener puts an event.
pub fn user_route(user: &Pubkey, e: &BridgeEvent) -> (r: UserRoute)
    ensures
        r == spec_user_route(*user, *e),
{
    match e {
        BridgeEvent::UserFundsDeposited(x) if x.authority == *user => UserRoute::Personal,
        BridgeEvent::UserFundsWithdrawn(x) if x.authority == *user => UserRoute::Personal,
        BridgeEvent::UserCommKeyUpdated(x) if x.authority == *user => UserRoute::Personal,
        BridgeEvent::UserProfileClosed(x) if x.authority == *user => UserRoute::Personal,
        BridgeEvent::OffChainActionLogged(x) if x.actor == *user => UserRoute::Personal,
        BridgeEvent::UserProfileCreated(x) if x.authority == *user => UserRoute::Interaction,
        BridgeEvent::UserCommandDispatched(x) if x.sender == *user => UserRoute::Interaction,
        BridgeEvent::AdminCommandDispatched(x) if x.target_user_authority == *user => UserRoute::Interaction,
        _ => UserRoute::Ignored,
    }
}

/// The admin profile an interaction is with: the profile a user profile was
/// created for, or the profile of the admin a command was sent to or came
/// from. `None` for other events, or when the address cannot be derived.
pub open spec fn spec_interaction_admin(e: BridgeEvent) -> Option<Pubkey> {
    match e {
        BridgeEvent::UserProfileCreated(x) => Some(x.target_admin),
        BridgeEvent::UserCommandDispatched(x) => spec_admin_pda(x.target_admin_authority),
        BridgeEvent::AdminCommandDispatched(x) => spec_admin_pda(x.sender),
        _ => None,
    }
}

/// The admin profile an interaction is with: for a new user profile, the
/// admin profile it was created for; for a user's command, the profile
/// derived from the target admin's authority; for an admin's command, the
/// profile derived from the sending admin's authority; no other event is an
/// interaction with an admin profile.
pub proof fn lemma_interaction_admin_is_the_service(e: BridgeEvent)
    ensures
        e matches BridgeEvent::UserProfileCreated(x) ==> spec_interaction_admin(e) == Some(x.target_admin),
        e matches BridgeEvent::UserCommandDispatched(x) ==> spec_interaction_admin(e) == spec_admin_pda(
            x.target_admin_authority,
        ),
        e matches BridgeEvent::AdminCommandDispatched(x) ==> spec_interaction_admin(e) == spec_admin_pda(
            x.sender,
        ),
        !(e is UserProfileCreated || e is UserCommandDispatched || e is AdminCommandDispatched)
            ==> spec_interaction_admin(e) is None,
{
}

/// The admin profile an interaction is with.
pub fn get_admin_pubkey_from_interaction(e: &BridgeEvent) -> (r: Option<Pubkey>)
    ensures
        r == spec_interaction_admin(*e),
{
    match e {
        BridgeEvent::UserProfileCreated(x) => Some(x.target_admin),
        BridgeEvent::UserCommandDispatched(x) => admin_pda(&x.target_admin_authority),
        BridgeEvent::AdminCommandDispatched(x) => admin_pda(&x.sender),
        _ => None,
    }
}

/// The admin profile whose service listener also receives the event, given
/// the admin profiles that have a service listener: for an interaction of
/// the user with one of those profiles, that profile; `None` otherwise.
pub open spec fn spec_service_of(user: Pubkey, services: Set<Pubkey>, e: BridgeEvent) -> Option<Pubkey> {
    if spec_user_route(user, e) == UserRoute::Interaction && spec_interaction_admin(e) is Some
        && services.contains(spec_interaction_admin(e)->0) {
        spec_interaction_admin(e)
    } else {
        None
    }
}

/// Once a listener is opened for the admin profile `admin`, every interaction
/// of the user with that profile is delivered to it as well; once it is
/// closed, none is; and interactions with other profiles go where they went
/// before.
pub proof fn lemma_service_listener_delivery(
    user: Pubkey,
    services: Set<Pubkey>,
    admin: Pubkey,
    e: BridgeEvent,
)
    ensures
        spec_user_route(user, e) == UserRoute::Interaction && spec_interaction_admin(e) == Some(admin)
            ==> spec_service_of(user, services.insert(admin), e) == Some(admin),
        spec_interaction_admin(e) == Some(admin) ==> spec_service_of(user, services.remove(admin), e)
            is None,
        spec_interaction_admin(e) != Some(admin) ==> spec_service_of(user, services.insert(admin), e)
            == spec_service_of(user, services, e) && spec_service_of(user, services.remove(admin), e)
            == spec_service_of(user, services, e),
{
}

/// Where a user's listener delivers an event: the stream it goes to, and the
/// service whose listener also receives it.
pub struct UserDelivery {
    pub route: UserRoute,
    pub service: Option<Pubkey>,
}

/// The routing state of a user's listener: the user, and the table of the
/// listeners the user opened for single services, keyed by admin profile.
pub struct UserRouter {
    user: Pubkey,
    service_listeners: DashMap<Pubkey, mpsc::Sender<BridgeEvent>>,
}

impl UserRouter {
    /// The user whose events are routed.
    pub closed spec fn owner(&self) -> Pubkey {
        self.user
    }

    /// The admin profiles that have a service listener.
    pub closed spec fn view(&self) -> Set<Pubkey> {
        service_addresses(self.service_listeners)
    }

    /// A router for `user` with no service listeners.
    pub fn new(user: Pubkey) -> (r: Self)
        ensures
            r.owner() == user,
            r@ == Set::<Pubkey>::empty(),
    {
        UserRouter { user, service_listeners: services_new() }
    }

    /// Where the event goes: its stream by `spec_user_route`, and, for an
    /// interaction whose admin profile has a service listener, that profile.
    pub fn route(&self, e: &BridgeEvent) -> (r: UserDelivery)
        ensures
            r.route == spec_user_route(self.owner(), *e),
            r.service == spec_service_of(self.owner(), self@, *e),
    {
        let route = user_route(&self.user, e);
        let service = if route == UserRoute::Interaction {
            match get_admin_pubkey_from_interaction(e) {
                Some(k) => {
                    if services_contains(&self.service_listeners, &k) {
                        Some(k)
                    } else {
                        None
                    }
                },
                None => None,
            }
        } else {
            None
        };
        UserDelivery { route, service }
    }

    /// Opens a listener for the admin profile, in place of any earlier one.
    pub fn listen_for_service(&mut self, target_admin_pda: Pubkey, listener: mpsc::Sender<BridgeEvent>)
        ensures
            final(self).owner() == old(self).owner(),
            final(self)@ == old(self)@.insert(target_admin_pda),
    {
        services_insert(&mut self.service_listeners, target_admin_pda, listener);
    }

    /// Closes the listener of the admin profile and returns it with the
    /// profile's address, if one was open.
    pub fn stop_listening_for_service(&mut self, target_admin_pda: Pubkey) -> (r: Option<
        (Pubkey, mpsc::Sender<BridgeEvent>),
    >)
        ensures
            final(self).owner() == old(self).owner(),
            final(self)@ == old(self)@.remove(target_admin_pda),
            r is Some <==> old(self)@.contains(target_admin_pda),
            r matches Some(p) ==> p.0 == target_admin_pda,
    {
        services_remove(&mut self.service_listeners, &target_admin_pda)
    }

    /// A handle to the listener of the admin profile, if one is open.
    pub fn service_listener(&self, admin: &Pubkey) -> (r: Option<mpsc::Sender<BridgeEvent>>)
        ensures
            r is Some <==> self@.contains(*admin),
    {
        services_get(&self.service_listeners, admin)
    }
}

/// Where an admin's listener puts an event.
#[derive(Clone, Copy, Debug, PartialEq, Eq, Structural)]
pub enum AdminRoute {
    /// The admin's own action.
    Personal,
    /// A command a user sent to this admin.
    IncomingCommand,
    /// A user profile created for this admin.
    NewUserProfile,
    /// Not the admin's event.
    Ignored,
}

/// Where the listener of the admin `authority`, whose profile is at
/// `profile`, puts an event. A user's command is the admin's when the profile
/// derived from its target authority is the admin's profile.
pub open spec fn spec_admin_route(authority: Pubkey, profile: Option<Pubkey>, e: BridgeEvent) -> AdminRoute {
    match e {
        BridgeEvent::AdminProfileRegistered(x) if x.authority == authority => AdminRoute::Personal,
        BridgeEvent::AdminPricesUpdated(x) if x.authority == authority => AdminRoute::Personal,
        BridgeEvent::AdminFundsWithdrawn(x) if x.authority == authority => AdminRoute::Personal,
        BridgeEvent::AdminCommKeyUpdated(x) if x.authority == authority => AdminRoute::Personal,
        BridgeEvent::AdminProfileClosed(x) if x.authority == authority => AdminRoute::Personal,
        BridgeEvent::AdminCommandDispatched(x) if x.sender == authority => AdminRoute::Personal,
        BridgeEvent::OffChainActionLogged(x) if x.actor == authority => AdminRoute::Personal,
        BridgeEvent::UserCommandDispatched(x) => if profile is Some && spec_admin_pda(
            x.target_admin_authority,
        ) == profile {
            AdminRoute::IncomingCommand
        } else {
            AdminRoute::Ignored
        },
        BridgeEvent::UserProfileCreated(x) if profile == Some(x.target_admin) => AdminRoute::NewUserProfile,
        _ => AdminRoute::Ignored,
    }
}

/// An admin's listener puts the admin's own actions (the admin's profile
/// registered, prices or key updated, funds withdrawn, profile closed, a
/// command the admin sent, an off-chain action the admin logged) on the
/// personal stream; a user's command whose target authority derives the
/// admin's profile on the incoming-command stream; a user profile created for
/// the admin's profile on the new-profile stream; and every other event
/// nowhere.
pub proof fn lemma_admin_route_sorts_by_party(authority: Pubkey, profile: Option<Pubkey>, e: BridgeEvent)
    ensures
        e matches BridgeEvent::AdminProfileRegistered(x) ==> (spec_admin_route(authority, profile, e)
            == AdminRoute::Personal <==> x.authority == authority),
        e matches BridgeEvent::AdminCommKeyUpdated(x) ==> (spec_admin_route(authority, profile, e)
            == AdminRoute::Personal <==> x.authority == authority),
        e matches BridgeEvent::AdminPricesUpdated(x) ==> (spec_admin_route(authority, profile, e)
            == AdminRoute::Personal <==> x.authority == authority),
        e matches BridgeEvent::AdminFundsWithdrawn(x) ==> (spec_admin_route(authority, profile, e)
            == AdminRoute::Personal <==> x.authority == authority),
        e matches BridgeEvent::AdminProfileClosed(x) ==> (spec_admin_route(authority, profile, e)
            == AdminRoute::Personal <==> x.authority == authority),
        e matches BridgeEvent::AdminCommandDispatched(x) ==> (spec_admin_route(authority, profile, e)
            == AdminRoute::Personal <==> x.sender == authority),
        e matches BridgeEvent::OffChainActionLogged(x) ==> (spec_admin_route(authority, profile, e)
            == AdminRoute::Personal <==> x.actor == authority),
        e matches BridgeEvent::UserCommandDispatched(x) ==> (spec_admin_route(authority, profile, e)
            == AdminRoute::IncomingCommand <==> (profile is Some && spec_admin_pda(
            x.target_admin_authority,
        ) == profile)),
        e matches BridgeEvent::UserProfileCreated(x) ==> (spec_admin_route(authority, profile, e)
            == AdminRoute::NewUserProfile <==> profile == Some(x.target_admin)),
        spec_admin_route(authority, profile, e) == AdminRoute::Personal ==> !(e is UserCommandDispatched
            || e is UserProfileCreated || e is UserFundsDeposited || e is UserFundsWithdrawn
            || e is UserCommKeyUpdated || e is UserProfileClosed || e is Unknown),
        spec_admin_route(authority, profile, e) == AdminRoute::IncomingCommand ==> e is UserCommandDispatched,
        spec_admin_route(authority, profile, e) == AdminRoute::NewUserProfile ==> e is UserProfileCreated,
{
}

/// The routing state of an admin's listener: the admin's authority and the
/// address of its profile.
pub struct AdminRouter {
    pub authority: Pubkey,
    pub profile: Option<Pubkey>,
}

impl AdminRouter {
    /// A router for the admin `authority`; its profile is the address derived
    /// from it.
    pub fn new(authority: Pubkey) -> (r: Self)
        ensures
            r.authority == authority,
            r.profile == spec_admin_pda(authority),
    {
        let profile = admin_pda(&authority);
        AdminRouter { authority, profile }
    }

    /// Where the event goes.
    pub fn route(&self, e: &BridgeEvent) -> (r: AdminRoute)
        ensures
            r == spec_admin_route(self.authority, self.profile, *e),
    {
        let authority = &self.authority;
        match e {
            BridgeEvent::AdminProfileRegistered(x) if x.authority == *authority => AdminRoute::Personal,
            BridgeEvent::AdminPricesUpdated(x) if x.authority == *authority => AdminRoute::Personal,
            BridgeEvent::AdminFundsWithdrawn(x) if x.authority == *authority => AdminRoute::Personal,
            BridgeEvent::AdminCommKeyUpdated(x) if x.authority == *authority => AdminRoute::Personal,
            BridgeEvent::AdminProfileClosed(x) if x.authority == *authority => AdminRoute::Personal,
            BridgeEvent::AdminCommandDispatched(x) if x.sender == *authority => AdminRoute::Personal,
            BridgeEvent::OffChainActionLogged(x) if x.actor == *authority => AdminRoute::Personal,
            BridgeEvent::UserCommandDispatched(x) => {
                match self.profile {
                    Some(p) => {
                        if admin_pda(&x.target_admin_authority) == Some(p) {
                            AdminRoute::IncomingCommand
                        } else {
                            AdminRoute::Ignored
                        }
                    },
                    None => AdminRoute::Ignored,
                }
            },
            BridgeEvent::UserProfileCreated(x) if self.profile == Some(x.target_admin) => AdminRoute::NewUserProfile,
            _ => AdminRoute::Ignored,
        }
    }
}

} // verus!
