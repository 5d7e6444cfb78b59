use w3b2::solana_connector::sync_state::{decode_last_slot, encode_slot, parse_u64};

#[test]
fn slot_text_round_trips() {
    for slot in [0u64, 7, 10, 12345, u64::MAX] {
        let text = encode_slot(slot);
        assert_eq!(text, slot.to_string().into_bytes());
        assert_eq!(parse_u64(&text), Some(slot));
    }
}

#[test]
fn stored_slot_reads_as_from_str_does() {
    assert_eq!(decode_last_slot(None), 0);
    assert_eq!(decode_last_slot(Some(b"42")), 42);
    assert_eq!(decode_last_slot(Some(b"+42")), 42);
    assert_eq!(decode_last_slot(Some(b"0042")), 42);
    assert_eq!(decode_last_slot(Some(b"")), 0);
    assert_eq!(decode_last_slot(Some(b"+")), 0);
    assert_eq!(decode_last_slot(Some(b"-1")), 0);
    assert_eq!(decode_last_slot(Some(b" 1")), 0);
    assert_eq!(decode_last_slot(Some(b"18446744073709551615")), u64::MAX);
    assert_eq!(decode_last_slot(Some(b"18446744073709551616")), 0);
    for s in ["1", "+0", "99999999999999999999", "12a", "", "+"] {
        assert_eq!(parse_u64(s.as_bytes()), s.parse::<u64>().ok());
    }
}
