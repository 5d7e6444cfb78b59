use anchor_lang::solana_program::hash::hash;
use base64::Engine;
use w3b2::connector::catchup::{events_in_logs, process_round, process_transaction, FetchedTransaction, SyncPosition};
use w3b2::solana_connector::sync::SignatureInfo;
use w3b2::connector::events::{
    check_discriminators_distinct, discriminator_of, emitted_log_line, encode_event, parse_event_data, try_parse_log, BridgeEvent, EventDecodeError,
};
use w3b2::program::events::{
    event_kinds, label_of, AdminCommandDispatched, AdminPricesUpdated, OffChainActionLogged,
    UserCommandDispatched, UserFundsWithdrawn,
};
use w3b2::program::state::PriceEntry;
use w3b2::pubkey::Pubkey;
use w3b2::solana_connector::events::{
    events_from_logs, try_parse_log as parse_sourced, EventSource, ParseLogError,
};

fn key(n: u64) -> Pubkey {
    Pubkey { k0: n, k1: n + 1, k2: n + 2, k3: n + 3 }
}

fn samples() -> Vec<BridgeEvent> {
    vec![
        BridgeEvent::AdminPricesUpdated(AdminPricesUpdated {
            authority: key(1),
            new_prices: vec![PriceEntry::new(1, 1000), PriceEntry::new(7, 5)],
            ts: -3,
        }),
        BridgeEvent::UserFundsWithdrawn(UserFundsWithdrawn {
            authority: key(2),
            amount: 77,
            destination: key(3),
            new_deposit_balance: 9,
            ts: 1_700_000_000,
        }),
        BridgeEvent::UserCommandDispatched(UserCommandDispatched {
            sender: key(4),
            target_admin_authority: key(5),
            command_id: 513,
            price_paid: 1_000_000,
            payload: vec![1, 2, 3],
            ts: 42,
        }),
        BridgeEvent::AdminCommandDispatched(AdminCommandDispatched {
            sender: key(6),
            target_user_authority: key(7),
            command_id: u64::MAX,
            payload: vec![],
            ts: 0,
        }),
        BridgeEvent::OffChainActionLogged(OffChainActionLogged {
            actor: key(8),
            session_id: 12345,
            action_code: 200,
            ts: 5,
        }),
    ]
}

#[test]
fn discriminators_are_sha256_prefixes_and_distinct() {
    let kinds = event_kinds();
    let mut seen: Vec<Vec<u8>> = Vec::new();
    for k in kinds {
        let d = discriminator_of(k);
        assert_eq!(d, hash(label_of(k).as_bytes()).to_bytes()[..8].to_vec());
        assert!(!seen.contains(&d));
        seen.push(d);
    }
    assert_eq!(seen.len(), 13);
}

#[test]
fn encoded_events_parse_back() {
    for e in samples() {
        let bytes = encode_event(&e);
        assert_eq!(parse_event_data(&bytes), Ok(e.clone()));
    }
}

#[test]
fn event_record_layout_is_borsh() {
    let e = BridgeEvent::OffChainActionLogged(OffChainActionLogged {
        actor: key(8),
        session_id: 0x0102030405060708,
        action_code: 0x0a0b,
        ts: -1,
    });
    let bytes = encode_event(&e);
    let mut expected = hash(b"event:OffChainActionLogged").to_bytes()[..8].to_vec();
    expected.extend_from_slice(&key(8).to_vec());
    expected.extend_from_slice(&0x0102030405060708u64.to_le_bytes());
    expected.extend_from_slice(&0x0a0bu16.to_le_bytes());
    expected.extend_from_slice(&(-1i64).to_le_bytes());
    assert_eq!(bytes, expected);
}

#[test]
fn short_unknown_and_malformed_records() {
    assert_eq!(parse_event_data(&[1, 2, 3]), Ok(BridgeEvent::Unknown));
    assert_eq!(parse_event_data(&[0u8; 40]), Ok(BridgeEvent::Unknown));
    let mut bytes = encode_event(&samples()[1]);
    bytes.pop();
    assert_eq!(parse_event_data(&bytes), Err(EventDecodeError::Malformed));
    let mut bytes = encode_event(&samples()[1]);
    bytes.push(0);
    assert_eq!(parse_event_data(&bytes), Err(EventDecodeError::Malformed));
}

#[test]
fn log_lines_yield_events() {
    let e = samples()[2].clone();
    let line = format!(
        "Program data: {}",
        base64::engine::general_purpose::STANDARD.encode(encode_event(&e))
    );
    assert_eq!(try_parse_log(&line), Ok(e.clone()));
    assert_eq!(try_parse_log(&format!("{}  ", line)), Ok(e.clone()));
    assert_eq!(try_parse_log(&format!("{}\t\r\n", line)), Ok(e.clone()));
    assert_eq!(try_parse_log("Program log: Instruction: UserDeposit"), Ok(BridgeEvent::Unknown));
    assert_eq!(try_parse_log("Program data: !!!"), Ok(BridgeEvent::Unknown));
    assert_eq!(try_parse_log("Program data: AAAA"), Ok(BridgeEvent::Unknown));

    let sourced = parse_sourced(&line).unwrap();
    assert_eq!(sourced.source, EventSource::Catchup);
    assert_eq!(sourced.data, e);
    assert_eq!(parse_sourced("Program log: hello").unwrap_err(), ParseLogError::NotAnEvent);
}

#[test]
fn events_from_logs_keeps_order_and_marks_source() {
    let a = samples()[0].clone();
    let b = samples()[4].clone();
    let enc = |e: &BridgeEvent| {
        format!("Program data: {}", base64::engine::general_purpose::STANDARD.encode(encode_event(e)))
    };
    let logs = vec![
        "Program invoke [1]".to_string(),
        enc(&a),
        "Program log: x".to_string(),
        enc(&b),
        "Program data: zz".to_string(),
    ];
    let out = events_from_logs(&logs, EventSource::Live);
    assert_eq!(out.len(), 2);
    assert_eq!(out[0].data, a);
    assert_eq!(out[1].data, b);
    assert!(out.iter().all(|e| e.source == EventSource::Live));
}

#[test]
fn discriminators_are_checked_distinct() {
    assert!(check_discriminators_distinct());
}

#[test]
fn emitted_lines_parse_back() {
    for e in samples() {
        let line = emitted_log_line(&e);
        assert!(line.starts_with("Program data: "));
        assert_eq!(
            line,
            format!("Program data: {}", base64::engine::general_purpose::STANDARD.encode(encode_event(&e)))
        );
        assert_eq!(try_parse_log(&line), Ok(e.clone()));
    }
}

fn fetched(slot: u64, block_time: Option<i64>, logs: Vec<String>) -> Option<FetchedTransaction> {
    Some(FetchedTransaction { slot, block_time, logs })
}

#[test]
fn catch_up_hands_on_the_events_of_each_transaction_in_order() {
    let es = samples();
    let lines = vec![
        "Program log: Instruction: UserWithdraw".to_string(),
        emitted_log_line(&es[1]),
        "Program data: AAAA".to_string(),
        emitted_log_line(&es[0]),
    ];
    assert_eq!(events_in_logs(&lines), vec![es[1].clone(), es[0].clone()]);

    let plan = vec![
        SignatureInfo { signature: "a".to_string(), slot: 10 },
        SignatureInfo { signature: "b".to_string(), slot: 11 },
        SignatureInfo { signature: "c".to_string(), slot: 12 },
        SignatureInfo { signature: "d".to_string(), slot: 13 },
    ];
    let now = 10_000;
    let txs = vec![
        fetched(10, Some(now - 60), vec![emitted_log_line(&es[2])]),
        // older than the maximum age of 5 minutes: no event, but the position moves on
        fetched(11, Some(now - 301), vec![emitted_log_line(&es[3])]),
        fetched(12, None, lines.clone()),
        // not returned by the node
        None,
    ];
    let mut position: Option<SyncPosition> = None;
    let out = process_round(&plan, &txs, now, 5, &mut position);
    assert_eq!(out, vec![es[2].clone(), es[1].clone(), es[0].clone()]);
    let p = position.unwrap();
    assert_eq!(p.slot, 12);
    assert_eq!(p.signature, "c");

    let mut position = Some(SyncPosition { slot: 3, signature: "z".to_string() });
    assert!(process_transaction(&plan[3], &None, now, 5, &mut position).is_empty());
    assert_eq!(position.as_ref().unwrap().signature, "z");
    let out = process_transaction(&plan[1], &txs[1], now, 5, &mut position);
    assert!(out.is_empty());
    assert_eq!(position.as_ref().unwrap().slot, 11);
}
