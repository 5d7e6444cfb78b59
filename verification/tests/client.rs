use anchor_lang::prelude::Pubkey as SolanaPubkey;
use anchor_lang::solana_program::hash::hash;
use w3b2::connector::client::{
    encode_instruction, prepare_admin_update_prices, prepare_admin_withdraw, prepare_log_action,
    prepare_user_dispatch_command, InstructionKind,
};
use w3b2::connector::events::BridgeEvent;
use w3b2::connector::pda::{admin_pda, program_id, user_pda};
use w3b2::gateway::events::{gateway_event_from, key_string, EventMessage, PriceEntryMessage};
use w3b2::gateway::requests::{
    narrow_prices, parse_pubkey, serve_admin_close_profile, serve_user_dispatch_command,
    GatewayError, PrepareAdminCloseProfileRequest, PrepareUserDispatchCommandRequest,
};
use w3b2::program::events::{AdminPricesUpdated, UserCommandDispatched};
use w3b2::program::protocols::{CommandConfig, ConfigError, Destination};
use w3b2::program::state::PriceEntry;
use w3b2::pubkey::Pubkey;
use w3b2::solana_connector::client::{oracle_message, UserDispatchCommandArgs};

fn key(n: u64) -> Pubkey {
    Pubkey { k0: n, k1: 11 * n, k2: 13 * n, k3: 17 * n }
}

fn text(k: &Pubkey) -> String {
    SolanaPubkey::new_from_array(k.to_vec().try_into().unwrap()).to_string()
}

fn disc(name: &str) -> Vec<u8> {
    hash(format!("global:{}", name).as_bytes()).to_bytes()[..8].to_vec()
}

#[test]
fn instruction_data_is_discriminator_and_borsh_args() {
    let data = encode_instruction(InstructionKind::UserDeposit, &vec![w3b2::codec::FieldValue::U64(5)]);
    let mut expected = disc("user_deposit");
    expected.extend_from_slice(&5u64.to_le_bytes());
    assert_eq!(data, expected);
}

#[test]
fn admin_withdraw_instruction() {
    let authority = key(1);
    let plan = prepare_admin_withdraw(authority, 700, key(2)).unwrap();
    let admin = admin_pda(&authority).unwrap();
    assert_eq!(plan.program_id, program_id());
    let metas: Vec<(Pubkey, bool, bool)> = plan.accounts.iter().map(|m| (m.pubkey, m.is_signer, m.is_writable)).collect();
    assert_eq!(metas, vec![(authority, true, true), (admin, false, true), (key(2), false, true), (Pubkey::zero(), false, false)]);
    let mut expected = disc("admin_withdraw");
    expected.extend_from_slice(&700u64.to_le_bytes());
    assert_eq!(plan.data, expected);
}

#[test]
fn price_and_command_instructions() {
    let authority = key(3);
    let plan = prepare_admin_update_prices(authority, vec![PriceEntry::new(2, 9), PriceEntry::new(1, 4)]).unwrap();
    let mut expected = disc("admin_update_prices");
    expected.extend_from_slice(&2u32.to_le_bytes());
    expected.extend_from_slice(&2u16.to_le_bytes());
    expected.extend_from_slice(&9u64.to_le_bytes());
    expected.extend_from_slice(&1u16.to_le_bytes());
    expected.extend_from_slice(&4u64.to_le_bytes());
    assert_eq!(plan.data, expected);

    let admin = admin_pda(&key(4)).unwrap();
    let plan = prepare_user_dispatch_command(authority, admin, 7, vec![0xaa, 0xbb]).unwrap();
    let user = user_pda(&authority, &admin).unwrap();
    assert_eq!(plan.accounts[0].pubkey, authority);
    assert!(plan.accounts[0].is_signer && !plan.accounts[0].is_writable);
    assert_eq!(plan.accounts[1].pubkey, user);
    assert_eq!(plan.accounts[2].pubkey, admin);
    let mut expected = disc("user_dispatch_command");
    expected.extend_from_slice(&7u16.to_le_bytes());
    expected.extend_from_slice(&2u32.to_le_bytes());
    expected.extend_from_slice(&[0xaa, 0xbb]);
    assert_eq!(plan.data, expected);

    let plan = prepare_log_action(authority, user, admin, 12345, 200).unwrap();
    assert_eq!(plan.accounts.len(), 3);
    let mut expected = disc("log_action");
    expected.extend_from_slice(&12345u64.to_le_bytes());
    expected.extend_from_slice(&200u16.to_le_bytes());
    assert_eq!(plan.data, expected);
}

#[test]
fn gateway_reads_keys_and_narrows_integers() {
    let authority = key(5);
    assert_eq!(parse_pubkey(&text(&authority)), Ok(authority));
    assert_eq!(parse_pubkey(&"not a key".to_string()), Err(GatewayError::InvalidPubkey));
    assert_eq!(parse_pubkey(&"".to_string()), Err(GatewayError::InvalidPubkey));
    let req = PrepareAdminCloseProfileRequest { authority_pubkey: text(&authority) };
    let plan = serve_admin_close_profile(req).unwrap();
    assert_eq!(plan.data, disc("admin_close_profile"));
    let bad = PrepareAdminCloseProfileRequest { authority_pubkey: "0OIl".to_string() };
    assert_eq!(serve_admin_close_profile(bad).unwrap_err(), GatewayError::InvalidPubkey);

    let admin = admin_pda(&key(6)).unwrap();
    let req = PrepareUserDispatchCommandRequest {
        authority_pubkey: text(&authority),
        target_admin_pda: text(&admin),
        command_id: 0x1_0005,
        payload: vec![1],
    };
    let plan = serve_user_dispatch_command(req).unwrap();
    let mut expected = disc("user_dispatch_command");
    expected.extend_from_slice(&5u16.to_le_bytes());
    expected.extend_from_slice(&1u32.to_le_bytes());
    expected.push(1);
    assert_eq!(plan.data, expected);

    let narrowed = narrow_prices(&vec![PriceEntryMessage { command_id: 65537, price: 3 }]);
    assert_eq!(narrowed, vec![PriceEntry::new(1, 3)]);
}

#[test]
fn gateway_event_writes_keys_in_base58() {
    let e = BridgeEvent::UserCommandDispatched(UserCommandDispatched {
        sender: key(7),
        target_admin_authority: key(8),
        command_id: 9,
        price_paid: 10,
        payload: vec![1, 2],
        ts: 11,
    });
    assert_eq!(key_string(&key(7)), text(&key(7)));
    assert_eq!(parse_pubkey(&key_string(&key(7))), Ok(key(7)));
    match gateway_event_from(&e).event {
        Some(EventMessage::UserCommandDispatched { sender, target_admin_authority, command_id, price_paid, payload, ts }) => {
            assert_eq!(sender, text(&key(7)));
            assert_eq!(target_admin_authority, text(&key(8)));
            assert_eq!(command_id, 9u32);
            assert_eq!(price_paid, 10);
            assert_eq!(payload, vec![1, 2]);
            assert_eq!(ts, 11);
        }
        _ => panic!("wrong message"),
    }
    let prices = BridgeEvent::AdminPricesUpdated(AdminPricesUpdated {
        authority: key(1),
        new_prices: vec![PriceEntry::new(3, 30)],
        ts: 0,
    });
    match gateway_event_from(&prices).event {
        Some(EventMessage::AdminPricesUpdated { new_prices, .. }) => {
            assert_eq!(new_prices, vec![PriceEntryMessage { command_id: 3, price: 30 }]);
        }
        _ => panic!("wrong message"),
    }
    assert!(gateway_event_from(&BridgeEvent::Unknown).event.is_none());
}

#[test]
fn command_config_size_check() {
    let small = CommandConfig::new(1, vec![0; 32], Destination::IpV4([127, 0, 0, 1], 8080), vec![]);
    assert!(small.is_ok());
    assert_eq!(Destination::IpV4([1, 2, 3, 4], 1).size(), 7);
    assert_eq!(Destination::IpV6([0; 16], 1).size(), 19);
    assert_eq!(Destination::Url("https://a.b".to_string()).size(), 16);
    let big = CommandConfig::new(1, vec![0; 900], Destination::Url("x".repeat(80)), vec![0; 10]);
    assert_eq!(
        big.unwrap_err(),
        ConfigError::PayloadTooLarge { calculated_size: 8 + 904 + 85 + 14, max_size: 1000 }
    );
    let exact = CommandConfig::new(1, vec![0; 900], Destination::Url("x".repeat(67)), vec![0; 10]);
    assert!(exact.is_ok());
}

#[test]
fn oracle_message_layout() {
    let args = UserDispatchCommandArgs {
        command_id: 0x0102,
        price: 5,
        timestamp: -2,
        payload: vec![],
        oracle_pubkey: key(1),
        oracle_signature: [0; 64],
    };
    let mut expected = 0x0102u16.to_le_bytes().to_vec();
    expected.extend_from_slice(&5u64.to_le_bytes());
    expected.extend_from_slice(&(-2i64).to_le_bytes());
    assert_eq!(oracle_message(&args), expected);
}
