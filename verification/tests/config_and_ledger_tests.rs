use cross_seed_tools::config::parse_client_list;
use cross_seed_tools::ledger::DedupLedger;
use cross_seed_tools::strutil::{concat3, str_eq, str_matches_lower, vec_contains_str};

#[test]
fn client_list_entries_are_trimmed() {
    let v = parse_client_list(" qbit , deluge ,sab");
    assert_eq!(v, vec!["qbit", "deluge", "sab"]);
}

#[test]
fn client_list_of_one_entry() {
    let v = parse_client_list("qbit");
    assert_eq!(v, vec!["qbit"]);
}

#[test]
fn empty_value_holds_one_empty_entry() {
    let v = parse_client_list("");
    assert_eq!(v, vec![""]);
}

#[test]
fn empty_segments_are_kept() {
    let v = parse_client_list("a,,b,");
    assert_eq!(v, vec!["a", "", "b", ""]);
}

#[test]
fn tabs_and_newlines_are_trimmed() {
    let v = parse_client_list("\tqbit\n,\r sab");
    assert_eq!(v, vec!["qbit", "sab"]);
}

#[test]
fn ledger_records_keys_once() {
    let mut ledger = DedupLedger::new();
    assert!(!ledger.contains("HASH1-qbit"));
    ledger.insert(String::from("HASH1-qbit"));
    assert!(ledger.contains("HASH1-qbit"));
    assert!(!ledger.contains("HASH1-sab"));
    ledger.insert(String::from("HASH1-qbit"));
    ledger.insert(String::from("HASH2-qbit"));
    assert!(ledger.contains("HASH1-qbit"));
    assert!(ledger.contains("HASH2-qbit"));
}

#[test]
fn str_eq_compares_exactly() {
    assert!(str_eq("Test", "Test"));
    assert!(!str_eq("Test", "test"));
    assert!(!str_eq("Test", "Tes"));
    assert!(str_eq("", ""));
}

#[test]
fn case_folded_match_against_lowercase() {
    assert!(str_matches_lower("SeasonPack", "seasonpack"));
    assert!(str_matches_lower("seasonpack", "seasonpack"));
    assert!(str_matches_lower("SEASONPACK", "seasonpack"));
    assert!(!str_matches_lower("SeasonPacks", "seasonpack"));
    assert!(!str_matches_lower("SingleEpisode", "seasonpack"));
}

#[test]
fn concat3_joins_in_order() {
    assert_eq!(concat3("abc", "-", "qbit"), "abc-qbit");
}

#[test]
fn vector_membership_is_exact() {
    let v = vec![String::from("qbit"), String::from("deluge")];
    assert!(vec_contains_str(&v, "qbit"));
    assert!(!vec_contains_str(&v, "qBit"));
    assert!(!vec_contains_str(&v, "sab"));
}
