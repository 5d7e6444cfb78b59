use w3b2::connector::live::mentions;
use w3b2::solana_connector::sync::{
    catchup_plan, is_new_slot, is_too_old, is_within_catchup_depth, oldest_first, position_of,
    select_within_depth, SignatureInfo, SignatureScan,
};

fn sig(s: &str, slot: u64) -> SignatureInfo {
    SignatureInfo { signature: s.to_string(), slot }
}

fn names(v: &[SignatureInfo]) -> Vec<String> {
    v.iter().map(|s| s.signature.clone()).collect()
}

#[test]
fn scan_stops_at_the_last_processed_signature() {
    let mut scan = SignatureScan::new();
    let known = Some("c".to_string());
    let done = scan.absorb_page(vec![sig("f", 6), sig("e", 5), sig("d", 4)], &known, None);
    assert!(!done);
    let done = scan.absorb_page(vec![sig("c", 3), sig("b", 2)], &known, None);
    assert!(done);
    assert_eq!(names(&scan.collected), vec!["f", "e", "d"]);
    let ordered = oldest_first(scan.collected);
    assert_eq!(names(&ordered), vec!["d", "e", "f"]);
}

#[test]
fn scan_without_known_signature_reads_until_an_empty_page() {
    let mut scan = SignatureScan::new();
    assert!(!scan.absorb_page(vec![sig("b", 2), sig("a", 1)], &None, None));
    assert!(scan.absorb_page(vec![], &None, None));
    assert_eq!(names(&scan.collected), vec!["b", "a"]);
}

#[test]
fn scan_limit_counts_collected_signatures() {
    let mut scan = SignatureScan::new();
    assert!(!scan.absorb_page(vec![sig("e", 5), sig("d", 4)], &None, Some(5)));
    assert_eq!(scan.fetched, 2);
    assert!(scan.absorb_page(vec![sig("c", 3), sig("b", 2)], &None, Some(5)));
    assert_eq!(scan.fetched, 6);
    assert_eq!(names(&scan.collected), vec!["e", "d", "c", "b"]);
}

#[test]
fn position_of_finds_the_first_match() {
    let page = vec![sig("x", 1), sig("y", 2), sig("x", 3)];
    assert_eq!(position_of(&page, &"x".to_string()), 0);
    assert_eq!(position_of(&page, &"y".to_string()), 1);
    assert_eq!(position_of(&page, &"z".to_string()), 3);
}

#[test]
fn catchup_depth() {
    assert!(is_within_catchup_depth(5, 100, None));
    assert!(!is_within_catchup_depth(89, 100, Some(10)));
    assert!(is_within_catchup_depth(90, 100, Some(10)));
    assert!(is_within_catchup_depth(0, 5, Some(10)));
    let kept = select_within_depth(vec![sig("a", 80), sig("b", 95), sig("c", 89), sig("d", 100)], 100, Some(10));
    assert_eq!(names(&kept), vec!["b", "d"]);
    let kept = select_within_depth(vec![sig("a", 1), sig("b", 2)], 100, None);
    assert_eq!(names(&kept), vec!["a", "b"]);
}

#[test]
fn age_and_live_slot_filters() {
    assert!(!is_too_old(None, 1_000, 1));
    assert!(!is_too_old(Some(940), 1_000, 1));
    assert!(is_too_old(Some(939), 1_000, 1));
    assert!(!is_too_old(Some(i64::MAX), i64::MIN, 0));
    assert!(is_too_old(Some(i64::MIN), i64::MAX, u32::MAX));
    assert!(is_new_slot(11, 10));
    assert!(!is_new_slot(10, 10));
    assert!(!is_new_slot(9, 10));
}

#[test]
fn log_mentions_program() {
    let id = "3LhCu6pXXdiwpvBUrFKLxCy1XQ5qyE7v6WSCLbkbS8Dr";
    assert!(mentions(&format!("Program {} invoke [1]", id), id));
    assert!(!mentions("Program 11111111111111111111111111111111 invoke [1]", id));
    assert!(mentions("anything", ""));
    assert!(!mentions("ab", "abc"));
}

#[test]
fn catchup_plan_is_oldest_first_within_depth() {
    let plan = catchup_plan(vec![sig("d", 100), sig("c", 95), sig("b", 80), sig("a", 99)], 100, Some(10));
    assert_eq!(names(&plan), vec!["a", "c", "d"]);
}
