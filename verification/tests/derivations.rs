use btc_cli_args::constants::BLOCK_EXPLORER_URL;
use btc_cli_args::errors::AppError;
use btc_cli_args::get_cli_args::{
    get_addresses_and_amounts_from_cli_args, get_api_endpoint_from_cli_args,
    get_network_from_cli_arg, get_nonce_from_cli_arg, resolve_nonce,
};
use btc_cli_args::types::BtcNetwork;
use std::time::{Duration, SystemTime, SystemTimeError, UNIX_EPOCH};

fn strings(items: &[&str]) -> Vec<String> {
    items.iter().map(|s| s.to_string()).collect()
}

fn clock_failure() -> SystemTimeError {
    let later = UNIX_EPOCH + Duration::from_secs(10);
    UNIX_EPOCH.duration_since(later).unwrap_err()
}

#[test]
fn testnet_argument_selects_testnet() {
    assert_eq!(get_network_from_cli_arg(&"Testnet".to_string()), BtcNetwork::Testnet);
}

#[test]
fn every_other_argument_selects_mainnet() {
    for raw in ["", "testnet", "TESTNET", "Testnet ", " Testnet", "Bitcoin", "garbage", "Testne", "Testnett"] {
        assert_eq!(get_network_from_cli_arg(&raw.to_string()), BtcNetwork::MainNet, "{:?}", raw);
    }
}

#[test]
fn explicit_nonce_passes_through() {
    for n in [1u64, 2, 1337, u64::MAX] {
        match get_nonce_from_cli_arg(&n) {
            Ok(nonce) => assert_eq!(nonce, n),
            Err(e) => panic!("unexpected error: {:?}", e),
        }
    }
}

#[test]
fn explicit_nonce_is_the_same_on_every_call() {
    let first = get_nonce_from_cli_arg(&77).unwrap();
    let second = get_nonce_from_cli_arg(&77).unwrap();
    assert_eq!(first, 77);
    assert_eq!(first, second);
}

#[test]
fn zero_nonce_takes_the_current_time() {
    let before = SystemTime::now().duration_since(UNIX_EPOCH).unwrap().as_secs();
    let nonce = get_nonce_from_cli_arg(&0).unwrap();
    let after = SystemTime::now().duration_since(UNIX_EPOCH).unwrap().as_secs();
    assert_ne!(nonce, 0);
    assert!(nonce + 2 >= before);
    assert!(nonce <= after + 2);
}

#[test]
fn zero_nonce_does_not_decrease_between_calls() {
    let first = get_nonce_from_cli_arg(&0).unwrap();
    let second = get_nonce_from_cli_arg(&0).unwrap();
    assert!(first <= second);
}

#[test]
fn resolve_nonce_uses_the_reading_only_for_zero() {
    assert_eq!(resolve_nonce(0, Ok(42)).unwrap(), 42);
    assert_eq!(resolve_nonce(5, Ok(42)).unwrap(), 5);
    assert_eq!(resolve_nonce(5, Err(clock_failure())).unwrap(), 5);
}

#[test]
fn resolve_nonce_reports_a_failed_reading() {
    match resolve_nonce(0, Err(clock_failure())) {
        Err(AppError::SystemTimeError(e)) => assert_eq!(e.duration(), Duration::from_secs(10)),
        other => panic!("unexpected outcome: {:?}", other),
    }
}

#[test]
fn testnet_endpoint() {
    let url = get_api_endpoint_from_cli_args(&"Testnet".to_string());
    assert_eq!(url, "https://blockstream.info/testnet/api/");
    assert!(url.starts_with(BLOCK_EXPLORER_URL));
    assert!(url.ends_with("testnet/api/"));
}

#[test]
fn mainnet_endpoint() {
    for raw in ["", "Bitcoin", "testnet", "anything"] {
        let url = get_api_endpoint_from_cli_args(&raw.to_string());
        assert_eq!(url, "https://blockstream.info//api/");
        assert_eq!(url, format!("{}/api/", BLOCK_EXPLORER_URL));
        assert!(url.starts_with(BLOCK_EXPLORER_URL));
        assert!(url.ends_with("/api/"));
        assert!(!url.ends_with("testnet/api/"));
    }
}

#[test]
fn pairs_addresses_with_amounts() {
    let pairing = get_addresses_and_amounts_from_cli_args(&strings(&["a1", "a2"]), &vec![10, 20]);
    assert_eq!(pairing.len(), 2);
    assert_eq!(pairing.get("a1"), Some(&10));
    assert_eq!(pairing.get("a2"), Some(&20));
    assert_eq!(pairing.get("a3"), None);
}

#[test]
fn pairing_does_not_depend_on_the_order_of_distinct_addresses() {
    let forward = get_addresses_and_amounts_from_cli_args(&strings(&["a1", "a2"]), &vec![10, 20]);
    let backward = get_addresses_and_amounts_from_cli_args(&strings(&["a2", "a1"]), &vec![20, 10]);
    for address in ["a1", "a2"] {
        assert_eq!(forward.get(address), backward.get(address));
    }
    assert_eq!(forward.len(), backward.len());
}

#[test]
fn repeated_address_keeps_the_last_amount() {
    let pairing = get_addresses_and_amounts_from_cli_args(&strings(&["a1", "a1"]), &vec![10, 20]);
    assert_eq!(pairing.len(), 1);
    assert_eq!(pairing.get("a1"), Some(&20));
    let mixed = get_addresses_and_amounts_from_cli_args(
        &strings(&["a1", "a2", "a1", "a3"]),
        &vec![1, 2, 3, 4],
    );
    assert_eq!(mixed.len(), 3);
    assert_eq!(mixed.get("a1"), Some(&3));
    assert_eq!(mixed.get("a2"), Some(&2));
    assert_eq!(mixed.get("a3"), Some(&4));
}

#[test]
fn pairing_of_nothing_is_empty() {
    let pairing = get_addresses_and_amounts_from_cli_args(&Vec::new(), &Vec::new());
    assert!(pairing.is_empty());
    assert_eq!(pairing.get("a1"), None);
}

#[test]
fn surplus_amounts_are_ignored() {
    let pairing = get_addresses_and_amounts_from_cli_args(&strings(&["a1"]), &vec![10, 20, 30]);
    assert_eq!(pairing.len(), 1);
    assert_eq!(pairing.get("a1"), Some(&10));
}
