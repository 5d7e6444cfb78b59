use anchor_lang::prelude::Pubkey as SolanaPubkey;
use w3b2::connector::events::BridgeEvent;
use w3b2::connector::listener::{
    get_admin_pubkey_from_interaction, user_route, AdminRoute, AdminRouter, UserRoute, UserRouter,
};
use w3b2::connector::pda::{admin_pda, extract_pdas_from_event, program_id, user_pda};
use w3b2::connector::registry::Registry;
use w3b2::gateway::subscriptions::{ActiveSubscriptions, SubscribeError};
use w3b2::program::events::{
    AdminCommandDispatched, AdminFundsWithdrawn, OffChainActionLogged, UserCommandDispatched,
    UserFundsDeposited, UserProfileCreated,
};
use w3b2::pubkey::Pubkey;
use w3b2::solana_connector::dispatcher::{CommandAction, Dispatcher, DispatcherCommand, ListenerChannels};
use w3b2::solana_connector::events::{BridgeEvent as SourcedEvent, EventSource};

fn key(n: u64) -> Pubkey {
    Pubkey { k0: n, k1: 3 * n, k2: 5 * n, k3: 7 * n }
}

fn solana(k: &Pubkey) -> SolanaPubkey {
    SolanaPubkey::new_from_array(k.to_vec().try_into().unwrap())
}

fn ours(k: &SolanaPubkey) -> Pubkey {
    Pubkey::from_slice(&k.to_bytes())
}

#[test]
fn program_id_is_the_bridge_program() {
    assert_eq!(solana(&program_id()).to_string(), "3LhCu6pXXdiwpvBUrFKLxCy1XQ5qyE7v6WSCLbkbS8Dr");
}

#[test]
fn profile_addresses_match_find_program_address() {
    let id = solana(&program_id());
    let authority = key(11);
    let (expected_admin, _) =
        SolanaPubkey::find_program_address(&[b"admin", solana(&authority).as_ref()], &id);
    let admin = admin_pda(&authority).unwrap();
    assert_eq!(admin, ours(&expected_admin));
    let user = key(12);
    let (expected_user, _) = SolanaPubkey::find_program_address(
        &[b"user", solana(&user).as_ref(), expected_admin.as_ref()],
        &id,
    );
    assert_eq!(user_pda(&user, &admin).unwrap(), ours(&expected_user));
}

#[test]
fn events_concern_the_expected_profiles() {
    let admin_auth = key(1);
    let user_auth = key(2);
    let admin = admin_pda(&admin_auth).unwrap();
    let user = user_pda(&user_auth, &admin).unwrap();
    let withdrawn = BridgeEvent::AdminFundsWithdrawn(AdminFundsWithdrawn {
        authority: admin_auth,
        amount: 1,
        destination: key(9),
        ts: 0,
    });
    assert_eq!(extract_pdas_from_event(&withdrawn), vec![admin]);
    let created = BridgeEvent::UserProfileCreated(UserProfileCreated {
        authority: user_auth,
        target_admin: admin,
        communication_pubkey: key(3),
        ts: 0,
    });
    assert_eq!(extract_pdas_from_event(&created), vec![user, admin]);
    let cmd = BridgeEvent::UserCommandDispatched(UserCommandDispatched {
        sender: user_auth,
        target_admin_authority: admin_auth,
        command_id: 1,
        price_paid: 10,
        payload: vec![],
        ts: 0,
    });
    assert_eq!(extract_pdas_from_event(&cmd), vec![user, admin]);
    let reply = BridgeEvent::AdminCommandDispatched(AdminCommandDispatched {
        sender: admin_auth,
        target_user_authority: user_auth,
        command_id: 2,
        payload: vec![9],
        ts: 0,
    });
    assert_eq!(extract_pdas_from_event(&reply), vec![user, admin]);
    let deposit = BridgeEvent::UserFundsDeposited(UserFundsDeposited {
        authority: user_auth,
        amount: 1,
        new_deposit_balance: 1,
        ts: 0,
    });
    assert!(extract_pdas_from_event(&deposit).is_empty());
    assert!(extract_pdas_from_event(&BridgeEvent::Unknown).is_empty());
}

#[test]
fn registry_reads_back_what_was_written() {
    let mut r: Registry<u32> = Registry::new();
    assert_eq!(r.insert(key(1), 10), None);
    assert_eq!(r.insert(key(2), 20), None);
    assert_eq!(r.get(&key(1)), Some(&10));
    assert_eq!(r.insert(key(1), 11), Some(10));
    assert_eq!(r.get(&key(1)), Some(&11));
    assert_eq!(r.get(&key(2)), Some(&20));
    assert!(r.contains_key(&key(2)));
    assert_eq!(r.remove(&key(2)), Some((key(2), 20)));
    assert_eq!(r.remove(&key(2)), None);
    assert_eq!(r.get(&key(2)), None);
    assert_eq!(r.get(&key(1)), Some(&11));
}

#[test]
fn dispatcher_routes_to_registered_profiles_only() {
    let admin_auth = key(1);
    let user_auth = key(2);
    let admin = admin_pda(&admin_auth).unwrap();
    let user = user_pda(&user_auth, &admin).unwrap();
    let mut d: Dispatcher<&'static str> = Dispatcher::new();
    assert!(matches!(d.handle_command(DispatcherCommand::Register(admin, "admin")), CommandAction::Continue));
    let event = SourcedEvent {
        source: EventSource::Live,
        data: BridgeEvent::UserCommandDispatched(UserCommandDispatched {
            sender: user_auth,
            target_admin_authority: admin_auth,
            command_id: 1,
            price_paid: 10,
            payload: vec![],
            ts: 0,
        }),
    };
    assert_eq!(d.event_targets(&event), vec![admin]);
    d.handle_command(DispatcherCommand::Register(user, "user"));
    assert_eq!(d.event_targets(&event), vec![user, admin]);
    assert_eq!(d.listener(&user), Some(&"user"));
    d.handle_command(DispatcherCommand::Unregister(admin));
    assert_eq!(d.event_targets(&event), vec![user]);
    d.remove_disconnected(&vec![user]);
    assert!(d.event_targets(&event).is_empty());
    match d.handle_command(DispatcherCommand::Dispatch(event.clone())) {
        CommandAction::Forward(e) => assert_eq!(e.data, event.data),
        _ => panic!("a dispatched event is forwarded"),
    }
    assert!(matches!(d.handle_command(DispatcherCommand::Shutdown), CommandAction::Stop));
}

#[test]
fn user_listener_sorts_events() {
    let me = key(2);
    let admin_auth = key(1);
    let admin = admin_pda(&admin_auth).unwrap();
    let deposit = BridgeEvent::UserFundsDeposited(UserFundsDeposited { authority: me, amount: 1, new_deposit_balance: 1, ts: 0 });
    let other_deposit = BridgeEvent::UserFundsDeposited(UserFundsDeposited { authority: key(5), amount: 1, new_deposit_balance: 1, ts: 0 });
    let logged = BridgeEvent::OffChainActionLogged(OffChainActionLogged { actor: me, session_id: 1, action_code: 2, ts: 0 });
    let reply = BridgeEvent::AdminCommandDispatched(AdminCommandDispatched {
        sender: admin_auth,
        target_user_authority: me,
        command_id: 2,
        payload: vec![],
        ts: 0,
    });
    assert_eq!(user_route(&me, &deposit), UserRoute::Personal);
    assert_eq!(user_route(&me, &other_deposit), UserRoute::Ignored);
    assert_eq!(user_route(&me, &logged), UserRoute::Personal);
    assert_eq!(user_route(&me, &reply), UserRoute::Interaction);
    assert_eq!(get_admin_pubkey_from_interaction(&reply), Some(admin));
    assert_eq!(get_admin_pubkey_from_interaction(&deposit), None);

    let mut router = UserRouter::new(me);
    assert_eq!(router.route(&reply).service, None);
    let (tx, mut rx) = tokio::sync::mpsc::channel::<BridgeEvent>(4);
    router.listen_for_service(admin, tx.clone());
    let d = router.route(&reply);
    assert_eq!(d.route, UserRoute::Interaction);
    assert_eq!(d.service, Some(admin));
    let handle = router.service_listener(&admin).unwrap();
    assert!(handle.same_channel(&tx));
    handle.try_send(reply.clone()).unwrap();
    assert_eq!(rx.try_recv().unwrap(), reply);
    assert!(router.service_listener(&key(99)).is_none());
    assert_eq!(router.route(&deposit).service, None);
    let (k, closed) = router.stop_listening_for_service(admin).unwrap();
    assert_eq!(k, admin);
    assert!(closed.same_channel(&tx));
    assert_eq!(router.route(&reply).service, None);
    assert!(router.stop_listening_for_service(admin).is_none());
}

#[test]
fn admin_listener_sorts_events() {
    let admin_auth = key(1);
    let admin = admin_pda(&admin_auth).unwrap();
    let router = AdminRouter::new(admin_auth);
    assert_eq!(router.profile, Some(admin));
    let cmd = |target: Pubkey| BridgeEvent::UserCommandDispatched(UserCommandDispatched {
        sender: key(2),
        target_admin_authority: target,
        command_id: 1,
        price_paid: 10,
        payload: vec![],
        ts: 0,
    });
    assert_eq!(router.route(&cmd(admin_auth)), AdminRoute::IncomingCommand);
    assert_eq!(router.route(&cmd(key(9))), AdminRoute::Ignored);
    let created = |target: Pubkey| BridgeEvent::UserProfileCreated(UserProfileCreated {
        authority: key(2),
        target_admin: target,
        communication_pubkey: key(3),
        ts: 0,
    });
    assert_eq!(router.route(&created(admin)), AdminRoute::NewUserProfile);
    assert_eq!(router.route(&created(admin_auth)), AdminRoute::Ignored);
    let withdrawn = BridgeEvent::AdminFundsWithdrawn(AdminFundsWithdrawn { authority: admin_auth, amount: 1, destination: key(4), ts: 0 });
    assert_eq!(router.route(&withdrawn), AdminRoute::Personal);
    let own_reply = BridgeEvent::AdminCommandDispatched(AdminCommandDispatched {
        sender: admin_auth,
        target_user_authority: key(2),
        command_id: 3,
        payload: vec![],
        ts: 0,
    });
    assert_eq!(router.route(&own_reply), AdminRoute::Personal);
    assert_eq!(router.route(&BridgeEvent::Unknown), AdminRoute::Ignored);
}

#[test]
fn one_stream_per_address() {
    let mut subs = ActiveSubscriptions::new();
    let (tx1, rx1) = tokio::sync::watch::channel(());
    let (tx2, _rx2) = tokio::sync::watch::channel(());
    let (tx3, _rx3) = tokio::sync::watch::channel(());
    assert_eq!(subs.subscribe(key(1), tx1), Ok(()));
    assert!(!rx1.has_changed().is_err());
    let probe = tx2.clone();
    assert_eq!(subs.subscribe(key(1), tx2), Err(SubscribeError::AlreadyExists));
    // The refused request took the place of the first stop signal, which is dropped.
    assert!(rx1.has_changed().is_err());
    assert_eq!(subs.subscribe(key(2), tx3), Ok(()));
    assert!(subs.unsubscribe(&key(1)).unwrap().same_channel(&probe));
    assert!(subs.unsubscribe(&key(1)).is_none());
    let (tx4, _rx4) = tokio::sync::watch::channel(());
    assert_eq!(subs.subscribe(key(1), tx4), Ok(()));
}

#[test]
fn events_go_to_the_channel_of_their_source() {
    let channels = ListenerChannels { live: "live", catchup: "catchup" };
    assert_eq!(*channels.channel_for(EventSource::Live), "live");
    assert_eq!(*channels.channel_for(EventSource::Catchup), "catchup");
}
