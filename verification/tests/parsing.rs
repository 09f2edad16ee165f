use btc_cli_args::errors::AppError;
use btc_cli_args::fields::{bounded_number, coercion_failure, parse_failure};
use btc_cli_args::get_cli_args::{get_cli_args, CliArgs};
use btc_cli_args::numbers::{number_from_text, number_from_trimmed};
use btc_cli_args::usage_info::USAGE_INFO;

const PREFIX: &str = "\u{2718} Docopt error: ";

fn argv(items: &[&str]) -> Vec<String> {
    let mut all = vec!["btc_tx_maker".to_string()];
    all.extend(items.iter().map(|s| s.to_string()));
    all
}

fn parsed(items: &[&str]) -> CliArgs {
    match get_cli_args(&argv(items)) {
        Ok(args) => args,
        Err(e) => panic!("unexpected error: {:?}", e),
    }
}

fn failure(items: &[&str]) -> String {
    match get_cli_args(&argv(items)) {
        Err(AppError::Custom(message)) => message,
        other => panic!("unexpected outcome: {:?}", other),
    }
}

fn defaults() -> CliArgs {
    CliArgs {
        flag_nonce: 0,
        flag_fee: 23,
        arg_data: String::new(),
        cmd_getUtxos: false,
        arg_to: vec![],
        flag_change: "signer".to_string(),
        flag_network: "Bitcoin".to_string(),
        arg_amount: vec![],
        flag_keyfile: "./private-key.gpg".to_string(),
        flag_logLevel: "none".to_string(),
        arg_recipient: String::new(),
        arg_btcAddress: String::new(),
        cmd_makeOnlineTx: false,
        arg_ethAddress: String::new(),
        arg_tx_id: vec![],
        cmd_makeOfflineTx: false,
        arg_utxos: None,
        arg_utxo_indices: vec![],
        cmd_getUtxosForAddress: false,
        flag_utxoFile: None,
        cmd_makeOnlineOpReturnTx: false,
        cmd_makeOfflineOpReturnTx: false,
        cmd_getPBTCDepositAddress: false,
        flag_outputPath: None,
    }
}

fn commands_selected(args: &CliArgs) -> usize {
    [
        args.cmd_getUtxos,
        args.cmd_getUtxosForAddress,
        args.cmd_makeOnlineTx,
        args.cmd_makeOfflineTx,
        args.cmd_makeOnlineOpReturnTx,
        args.cmd_makeOfflineOpReturnTx,
        args.cmd_getPBTCDepositAddress,
    ]
    .iter()
    .filter(|selected| **selected)
    .count()
}

#[test]
fn get_utxos_with_defaults() {
    let mut expected = defaults();
    expected.cmd_getUtxos = true;
    expected.arg_btcAddress = "mkAddress".to_string();
    assert_eq!(parsed(&["getUtxos", "mkAddress"]), expected);
}

#[test]
fn get_utxos_with_listed_outputs() {
    let mut expected = defaults();
    expected.cmd_getUtxos = true;
    expected.arg_btcAddress = "mkAddress".to_string();
    expected.arg_tx_id = vec!["aa".to_string(), "bb".to_string()];
    expected.arg_utxo_indices = vec![0, 7];
    expected.flag_network = "Testnet".to_string();
    assert_eq!(
        parsed(&["getUtxos", "mkAddress", "aa", "0", "bb", "7", "--network=Testnet"]),
        expected
    );
}

#[test]
fn get_utxos_for_address() {
    let mut expected = defaults();
    expected.cmd_getUtxosForAddress = true;
    expected.arg_btcAddress = "mkAddress".to_string();
    expected.flag_outputPath = Some("out.json".to_string());
    expected.flag_logLevel = "debug".to_string();
    assert_eq!(
        parsed(&["getUtxosForAddress", "mkAddress", "--outputPath=out.json", "--logLevel", "debug"]),
        expected
    );
}

#[test]
fn make_online_tx_with_options() {
    let mut expected = defaults();
    expected.cmd_makeOnlineTx = true;
    expected.arg_to = vec!["a1".to_string(), "a2".to_string()];
    expected.arg_amount = vec![10, 20];
    expected.flag_network = "Testnet".to_string();
    expected.flag_fee = 5;
    expected.flag_nonce = 9;
    expected.flag_change = "a3".to_string();
    expected.flag_keyfile = "key.gpg".to_string();
    expected.flag_utxoFile = Some("utxos.json".to_string());
    assert_eq!(
        parsed(&[
            "makeOnlineTx",
            "a1",
            "10",
            "a2",
            "20",
            "--network=Testnet",
            "--fee=5",
            "--nonce=9",
            "--change=a3",
            "--keyfile=key.gpg",
            "--utxoFile=utxos.json",
        ]),
        expected
    );
}

#[test]
fn make_offline_tx() {
    let mut expected = defaults();
    expected.cmd_makeOfflineTx = true;
    expected.arg_utxos = Some("[]".to_string());
    expected.arg_to = vec!["a1".to_string()];
    expected.arg_amount = vec![18446744073709551615];
    assert_eq!(parsed(&["makeOfflineTx", "[]", "a1", "18446744073709551615"]), expected);
}

#[test]
fn make_offline_tx_from_a_utxo_file() {
    let mut expected = defaults();
    expected.cmd_makeOfflineTx = true;
    expected.flag_utxoFile = Some("utxos.json".to_string());
    expected.arg_to = vec!["a1".to_string(), "a2".to_string()];
    expected.arg_amount = vec![10, 20];
    assert_eq!(parsed(&["makeOfflineTx", "--utxoFile=utxos.json", "a1", "10", "a2", "20"]), expected);
    assert_eq!(parsed(&["makeOfflineTx", "a1", "10", "a2", "20", "--utxoFile", "utxos.json"]), expected);
}

#[test]
fn make_offline_op_return_tx_from_a_utxo_file() {
    let mut expected = defaults();
    expected.cmd_makeOfflineOpReturnTx = true;
    expected.arg_data = "payload".to_string();
    expected.flag_utxoFile = Some("utxos.json".to_string());
    expected.arg_to = vec!["a1".to_string()];
    expected.arg_amount = vec![10];
    assert_eq!(
        parsed(&["makeOfflineOpReturnTx", "payload", "--utxoFile=utxos.json", "a1", "10"]),
        expected
    );
}

#[test]
fn make_offline_tx_needs_utxos() {
    let message = failure(&["makeOfflineTx", "a1", "10"]);
    assert!(message.starts_with(PREFIX), "{}", message);
    assert!(message.contains("Invalid arguments."), "{}", message);
}

#[test]
fn make_online_op_return_tx() {
    let mut expected = defaults();
    expected.cmd_makeOnlineOpReturnTx = true;
    expected.arg_data = "payload".to_string();
    expected.arg_to = vec!["a1".to_string()];
    expected.arg_amount = vec![1];
    assert_eq!(parsed(&["makeOnlineOpReturnTx", "payload", "a1", "1"]), expected);
}

#[test]
fn make_offline_op_return_tx() {
    let mut expected = defaults();
    expected.cmd_makeOfflineOpReturnTx = true;
    expected.arg_data = "payload".to_string();
    expected.arg_utxos = Some("[]".to_string());
    expected.arg_to = vec!["a1".to_string(), "a1".to_string()];
    expected.arg_amount = vec![1, 2];
    assert_eq!(parsed(&["makeOfflineOpReturnTx", "payload", "[]", "a1", "1", "a1", "2"]), expected);
}

#[test]
fn get_pbtc_deposit_address() {
    let mut expected = defaults();
    expected.cmd_getPBTCDepositAddress = true;
    expected.arg_ethAddress = "0xabc".to_string();
    expected.flag_nonce = 1337;
    assert_eq!(parsed(&["getPBTCDepositAddress", "0xabc", "--nonce=1337"]), expected);
    expected.arg_recipient = "mkAddress".to_string();
    assert_eq!(parsed(&["getPBTCDepositAddress", "0xabc", "mkAddress", "--nonce=1337"]), expected);
}

#[test]
fn every_record_selects_one_command() {
    let lists: [&[&str]; 7] = [
        &["getUtxos", "a"],
        &["getUtxosForAddress", "a"],
        &["makeOnlineTx", "a", "1"],
        &["makeOfflineTx", "[]", "a", "1"],
        &["makeOnlineOpReturnTx", "d", "a", "1"],
        &["makeOfflineOpReturnTx", "d", "[]", "a", "1"],
        &["getPBTCDepositAddress", "e"],
    ];
    for list in lists {
        assert_eq!(commands_selected(&parsed(list)), 1, "{:?}", list);
    }
}

#[test]
fn blank_number_is_zero() {
    let args = parsed(&["makeOnlineTx", "a1", "", "--fee= ", "--nonce="]);
    assert_eq!(args.arg_amount, vec![0]);
    assert_eq!(args.flag_fee, 0);
    assert_eq!(args.flag_nonce, 0);
}

#[test]
fn unknown_flag_is_a_parse_error() {
    let message = failure(&["getUtxos", "mkAddress", "--bogus"]);
    assert!(message.starts_with(PREFIX), "{}", message);
    assert!(message.contains("Unknown flag"), "{}", message);
}

#[test]
fn wrong_arity_is_a_parse_error() {
    for list in [
        &["getUtxos"][..],
        &["getUtxos", "a", "txid"],
        &["makeOnlineTx", "a1"],
        &["makeOnlineTx", "a1", "10", "a2"],
        &["getPBTCDepositAddress"],
        &["getUtxos", "a", "makeOnlineTx", "b", "1"],
        &[],
        &["noSuchCommand"],
    ] {
        let message = failure(list);
        assert!(message.starts_with(PREFIX), "{}", message);
        assert!(message.contains("Invalid arguments."), "{}", message);
    }
}

#[test]
fn help_is_reported_as_an_error() {
    let message = failure(&["--help"]);
    assert!(message.starts_with(PREFIX), "{}", message);
    assert!(message.contains("Usage:"), "{}", message);
}

#[test]
fn text_that_is_no_number_is_a_parse_error() {
    assert_eq!(
        failure(&["makeOnlineTx", "a1", "ten"]),
        format!("{}Could not deserialize 'ten' to u64 for '<amount>'.", PREFIX)
    );
    assert_eq!(
        failure(&["makeOnlineTx", "a1", "10", "--nonce=-1"]),
        format!("{}Could not deserialize '-1' to u64 for '--nonce'.", PREFIX)
    );
    assert_eq!(
        failure(&["makeOnlineTx", "a1", "10", "--fee=1.5"]),
        format!("{}Could not deserialize '1.5' to u64 for '--fee'.", PREFIX)
    );
    assert_eq!(
        failure(&["makeOnlineTx", "a1", "18446744073709551616"]),
        format!("{}Could not deserialize '18446744073709551616' to u64 for '<amount>'.", PREFIX)
    );
    assert_eq!(
        failure(&["getUtxos", "a", "txid", "4294967296"]),
        format!("{}Could not deserialize '4294967296' to u32 for '<utxo-indices>'.", PREFIX)
    );
}

#[test]
fn first_bad_number_is_reported() {
    assert_eq!(
        failure(&["makeOnlineTx", "a1", "x", "a2", "y", "--nonce=z"]),
        format!("{}Could not deserialize 'z' to u64 for '--nonce'.", PREFIX)
    );
    assert_eq!(
        failure(&["makeOnlineTx", "a1", "x", "a2", "y"]),
        format!("{}Could not deserialize 'x' to u64 for '<amount>'.", PREFIX)
    );
}

#[test]
fn number_from_text_reads_decimal() {
    assert_eq!(number_from_text("10"), Some(10));
    assert_eq!(number_from_text("0"), Some(0));
    assert_eq!(number_from_text("007"), Some(7));
    assert_eq!(number_from_text("+7"), Some(7));
    assert_eq!(number_from_text("18446744073709551615"), Some(u64::MAX));
}

#[test]
fn number_from_text_reads_blank_as_zero() {
    assert_eq!(number_from_text(""), Some(0));
    assert_eq!(number_from_text("   "), Some(0));
    assert_eq!(number_from_text("\t\n"), Some(0));
}

#[test]
fn number_from_text_rejects_the_rest() {
    for text in ["abc", "-1", "+", "++1", "1.5", " 5", "5 ", "1e3", "0x10", "18446744073709551616"] {
        assert_eq!(number_from_text(text), None, "{:?}", text);
    }
}

#[test]
fn number_from_trimmed_goes_by_what_trimming_left() {
    assert_eq!(number_from_trimmed("  ", ""), Some(0));
    assert_eq!(number_from_trimmed("", ""), Some(0));
    assert_eq!(number_from_trimmed("10", "10"), Some(10));
    assert_eq!(number_from_trimmed(" 5", "5"), None);
    assert_eq!(number_from_trimmed("abc", "abc"), None);
    assert_eq!(number_from_trimmed("18446744073709551615", "18446744073709551615"), Some(u64::MAX));
}

#[test]
fn bounded_number_respects_the_limit() {
    assert_eq!(bounded_number("255", 255, "u8", "--k").unwrap(), 255);
    match bounded_number("256", 255, "u8", "--k") {
        Err(AppError::Custom(message)) => {
            assert_eq!(message, format!("{}Could not deserialize '256' to u8 for '--k'.", PREFIX))
        }
        other => panic!("unexpected outcome: {:?}", other),
    }
}

#[test]
fn parse_failure_prefixes_the_diagnostic() {
    match parse_failure("Invalid arguments.") {
        AppError::Custom(message) => {
            assert_eq!(message, "\u{2718} Docopt error: Invalid arguments.")
        }
        other => panic!("unexpected error: {:?}", other),
    }
    match coercion_failure("x", "u64", "--nonce") {
        AppError::Custom(message) => assert_eq!(
            message,
            "\u{2718} Docopt error: Could not deserialize 'x' to u64 for '--nonce'."
        ),
        other => panic!("unexpected error: {:?}", other),
    }
}

#[test]
fn usage_names_every_command() {
    for command in [
        "getUtxos",
        "getUtxosForAddress",
        "makeOnlineTx",
        "makeOfflineTx",
        "makeOnlineOpReturnTx",
        "makeOfflineOpReturnTx",
        "getPBTCDepositAddress",
    ] {
        assert!(USAGE_INFO.contains(command));
    }
}
