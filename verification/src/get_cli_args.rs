use vstd::prelude::*;
use vstd::string::StringExecFns;
use std::time::SystemTimeError;
use docopt::ArgvMap;
use crate::clock::seconds_since_epoch;
use crate::constants::{BLOCK_EXPLORER_URL, DOCOPT_ERROR_PREFIX};
use crate::errors::AppError;
use crate::fields::{
    all_bounded_numbers, bounded_number_of, coercion_failure_message, ends_with, is_first_failure,
    is_parse_failure, list_field, number_field, number_list_field, numbers_match, option_view,
    coercion_failure, optional_field, optional_text, parse_failure, starts_with, string_field,
    string_views,
};
use crate::parser::{
    argv_map_vec, error_message, get_bool, get_str, grammar_matches, parse_argv, values_of_map,
    values_of_match, KeyValues,
};
use crate::usage_info::USAGE_INFO;
use crate::types::{BtcAddressesAndAmounts, BtcNetwork, Result};

verus! {

/// The one value of the network argument that selects the test network.
pub open spec fn testnet_arg() -> Seq<char> {
    seq!['T', 'e', 's', 't', 'n', 'e', 't']
}

/// The network selected by a raw network argument: the test network for
/// exactly `Testnet`, the main network for every other string.
pub open spec fn network_of(network_cli_arg: Seq<char>) -> BtcNetwork {
    if network_cli_arg == testnet_arg() {
        BtcNetwork::Testnet
    } else {
        BtcNetwork::MainNet
    }
}

/// The explorer path that follows the base URL for the test network.
pub open spec fn testnet_api_path() -> Seq<char> {
    seq!['t', 'e', 's', 't', 'n', 'e', 't', '/', 'a', 'p', 'i', '/']
}

/// The explorer path that follows the base URL for the main network.
pub open spec fn mainnet_api_path() -> Seq<char> {
    seq!['/', 'a', 'p', 'i', '/']
}

/// The explorer API endpoint for a raw network argument: the base URL followed
/// by the path of the selected network.
pub open spec fn api_endpoint_of(network_cli_arg: Seq<char>) -> Seq<char> {
    match network_of(network_cli_arg) {
        BtcNetwork::Testnet => BLOCK_EXPLORER_URL@ + testnet_api_path(),
        BtcNetwork::MainNet => BLOCK_EXPLORER_URL@ + mainnet_api_path(),
    }
}

/// Tells whether a raw network argument is exactly `Testnet`.
fn is_testnet_arg(network_cli_arg: &String) -> (yes: bool)
    ensures
        yes == (network_cli_arg@ == testnet_arg()),
{
    proof {
        reveal_strlit("Testnet");
        assert("Testnet"@ =~= testnet_arg());
    }
    let testnet = "Testnet".to_owned();
    network_cli_arg.eq(&testnet)
}

/// Selects the network from the raw network argument. The comparison is exact:
/// letter case is not normalised and nothing is trimmed.
pub fn get_network_from_cli_arg(network_cli_arg: &String) -> (network: BtcNetwork)
    ensures
        network == network_of(network_cli_arg@),
        network_cli_arg@ == testnet_arg() ==> network == BtcNetwork::Testnet,
        network_cli_arg@ != testnet_arg() ==> network == BtcNetwork::MainNet,
{
    if is_testnet_arg(network_cli_arg) {
        BtcNetwork::Testnet
    } else {
        BtcNetwork::MainNet
    }
}

/// Builds the explorer API endpoint for the raw network argument.
pub fn get_api_endpoint_from_cli_args(network_cli_arg: &String) -> (api_url: String)
    ensures
        api_url@ == api_endpoint_of(network_cli_arg@),
        starts_with(api_url@, BLOCK_EXPLORER_URL@),
        network_cli_arg@ == testnet_arg() ==> ends_with(api_url@, testnet_api_path()),
        network_cli_arg@ != testnet_arg() ==> ends_with(api_url@, mainnet_api_path()),
{
    proof {
        reveal_strlit("testnet/api/");
        reveal_strlit("/api/");
        assert("testnet/api/"@ =~= testnet_api_path());
        assert("/api/"@ =~= mainnet_api_path());
        lemma_api_endpoint_shape(network_cli_arg@);
    }
    let base = String::from_str(BLOCK_EXPLORER_URL);
    if is_testnet_arg(network_cli_arg) {
        base.concat("testnet/api/")
    } else {
        base.concat("/api/")
    }
}

/// Every endpoint begins with the base URL and ends with the path of the
/// network that the argument selects: the test network's path for `Testnet`,
/// the main network's path for any other argument.
pub proof fn lemma_api_endpoint_shape(network_cli_arg: Seq<char>)
    ensures
        starts_with(api_endpoint_of(network_cli_arg), BLOCK_EXPLORER_URL@),
        network_cli_arg == testnet_arg() ==> ends_with(
            api_endpoint_of(network_cli_arg),
            testnet_api_path(),
        ),
        network_cli_arg != testnet_arg() ==> ends_with(
            api_endpoint_of(network_cli_arg),
            mainnet_api_path(),
        ),
{
    let base = BLOCK_EXPLORER_URL@;
    let t = base + testnet_api_path();
    let m = base + mainnet_api_path();
    assert(t.subrange(0, base.len() as int) =~= base);
    assert(m.subrange(0, base.len() as int) =~= base);
    assert(t.subrange(t.len() - testnet_api_path().len(), t.len() as int) =~= testnet_api_path());
    assert(m.subrange(m.len() - mainnet_api_path().len(), m.len() as int) =~= mainnet_api_path());
}

/// The nonce for a raw nonce argument and a clock reading in whole seconds
/// since the Unix epoch: the argument itself unless it is zero, and for zero
/// the clock reading, whose failure becomes the error.
pub open spec fn resolved_nonce(
    nonce_cli_arg: u64,
    reading: std::result::Result<u64, SystemTimeError>,
) -> Result<u64> {
    if nonce_cli_arg != 0 {
        Ok(nonce_cli_arg)
    } else {
        match reading {
            Ok(seconds) => Ok(seconds),
            Err(e) => Err(AppError::SystemTimeError(e)),
        }
    }
}

/// Resolves the nonce from the raw nonce argument and a clock reading.
pub fn resolve_nonce(
    nonce_cli_arg: u64,
    reading: std::result::Result<u64, SystemTimeError>,
) -> (nonce: Result<u64>)
    ensures
        nonce == resolved_nonce(nonce_cli_arg, reading),
{
    if nonce_cli_arg != 0 {
        Ok(nonce_cli_arg)
    } else {
        match reading {
            Ok(seconds) => Ok(seconds),
            Err(e) => Err(AppError::SystemTimeError(e)),
        }
    }
}

/// Resolves the nonce from the raw nonce argument. A non-zero argument is the
/// nonce and the clock is not read. Zero asks for the current time: the nonce
/// is then what `resolve_nonce` makes of one reading of the system clock.
pub fn get_nonce_from_cli_arg(nonce_cli_arg: &u64) -> (nonce: Result<u64>)
    ensures
        *nonce_cli_arg != 0 ==> nonce == Ok::<u64, AppError>(*nonce_cli_arg),
        *nonce_cli_arg == 0 ==> exists|reading: std::result::Result<u64, SystemTimeError>|
            nonce == #[trigger] resolved_nonce(0, reading),
        nonce is Err ==> nonce->Err_0 is SystemTimeError,
{
    if *nonce_cli_arg != 0 {
        Ok(*nonce_cli_arg)
    } else {
        let reading = seconds_since_epoch();
        resolve_nonce(0, reading)
    }
}

/// An explicit nonce does not depend on the clock: whatever two readings are
/// taken, a non-zero argument resolves to itself both times.
pub proof fn lemma_explicit_nonce_ignores_clock(
    nonce_cli_arg: u64,
    first: std::result::Result<u64, SystemTimeError>,
    second: std::result::Result<u64, SystemTimeError>,
)
    requires
        nonce_cli_arg != 0,
    ensures
        resolved_nonce(nonce_cli_arg, first) == Ok::<u64, AppError>(nonce_cli_arg),
        resolved_nonce(nonce_cli_arg, first) == resolved_nonce(nonce_cli_arg, second),
{
}

/// A nonce taken from the clock follows the clock: of two successful readings,
/// the later one never gives the smaller nonce.
pub proof fn lemma_timestamp_nonce_follows_clock(earlier: u64, later: u64)
    requires
        earlier <= later,
    ensures
        resolved_nonce(0, Ok(earlier)) == Ok::<u64, AppError>(earlier),
        resolved_nonce(0, Ok(later)) == Ok::<u64, AppError>(later),
        resolved_nonce(0, Ok(earlier))->Ok_0 <= resolved_nonce(0, Ok(later))->Ok_0,
{
}

/// The mapping that pairs each address with the amount at its position. An
/// address that occurs more than once keeps the amount of its last occurrence.
pub open spec fn paired(addresses: Seq<Seq<char>>, amounts: Seq<u64>) -> Map<Seq<char>, u64>
    decreases addresses.len(),
{
    if addresses.len() == 0 {
        Map::empty()
    } else {
        paired(addresses.drop_last(), amounts).insert(
            addresses.last(),
            amounts[addresses.len() - 1],
        )
    }
}

/// Position `i` holds the last occurrence of its address in the list.
pub open spec fn is_last_occurrence(addresses: Seq<Seq<char>>, i: int) -> bool {
    &&& 0 <= i < addresses.len()
    &&& forall|j: int| i < j < addresses.len() ==> addresses[j] != addresses[i]
}

/// The keys of a pairing are exactly the addresses of the list.
pub proof fn lemma_paired_keys(addresses: Seq<Seq<char>>, amounts: Seq<u64>, address: Seq<char>)
    ensures
        paired(addresses, amounts).contains_key(address) <==> addresses.contains(address),
    decreases addresses.len(),
{
    if addresses.len() > 0 {
        let front = addresses.drop_last();
        lemma_paired_keys(front, amounts, address);
        if addresses.contains(address) {
            let i = choose|i: int| 0 <= i < addresses.len() && addresses[i] == address;
            if i < addresses.len() - 1 {
                assert(front[i] == address);
            }
        }
        if front.contains(address) {
            let i = choose|i: int| 0 <= i < front.len() && front[i] == address;
            assert(addresses[i] == address);
        }
    }
}

/// A pairing gives each address the amount that stands at the position of its
/// last occurrence: of two amounts for one address, the later one stays.
pub proof fn lemma_paired_last_wins(addresses: Seq<Seq<char>>, amounts: Seq<u64>, i: int)
    requires
        is_last_occurrence(addresses, i),
    ensures
        paired(addresses, amounts).contains_key(addresses[i]),
        paired(addresses, amounts)[addresses[i]] == amounts[i],
    decreases addresses.len(),
{
    if i < addresses.len() - 1 {
        let front = addresses.drop_last();
        assert(addresses[addresses.len() - 1] != addresses[i]);
        assert(is_last_occurrence(front, i)) by {
            assert forall|j: int| i < j < front.len() implies front[j] != front[i] by {
                assert(addresses[j] != addresses[i]);
            }
        }
        lemma_paired_last_wins(front, amounts, i);
    }
}

/// No address occurs twice in the list.
pub open spec fn no_address_twice(addresses: Seq<Seq<char>>) -> bool {
    forall|j: int, k: int| 0 <= j < k < addresses.len() ==> addresses[j] != addresses[k]
}

/// Every pair of the first lists, an address with the amount at its position,
/// is also a pair of the second lists.
pub open spec fn pairs_found_in(
    addresses: Seq<Seq<char>>,
    amounts: Seq<u64>,
    other_addresses: Seq<Seq<char>>,
    other_amounts: Seq<u64>,
) -> bool {
    forall|i: int|
        0 <= i < addresses.len() ==> exists|j: int|
            0 <= j < other_addresses.len() && other_addresses[j] == #[trigger] addresses[i]
                && other_amounts[j] == amounts[i]
}

/// Where no address occurs twice, a pairing gives every address the amount at
/// its own position.
pub proof fn lemma_paired_distinct(addresses: Seq<Seq<char>>, amounts: Seq<u64>, i: int)
    requires
        0 <= i < addresses.len(),
        no_address_twice(addresses),
    ensures
        paired(addresses, amounts).contains_key(addresses[i]),
        paired(addresses, amounts)[addresses[i]] == amounts[i],
{
    lemma_paired_last_wins(addresses, amounts, i);
}

/// A pairing does not depend on the order of its pairs: two lists of pairs in
/// which no address occurs twice, and which hold the same pairs, give the same
/// mapping.
pub proof fn lemma_paired_order_independent(
    addresses: Seq<Seq<char>>,
    amounts: Seq<u64>,
    other_addresses: Seq<Seq<char>>,
    other_amounts: Seq<u64>,
)
    requires
        addresses.len() <= amounts.len(),
        other_addresses.len() <= other_amounts.len(),
        no_address_twice(addresses),
        no_address_twice(other_addresses),
        pairs_found_in(addresses, amounts, other_addresses, other_amounts),
        pairs_found_in(other_addresses, other_amounts, addresses, amounts),
    ensures
        paired(addresses, amounts) == paired(other_addresses, other_amounts),
{
    let left = paired(addresses, amounts);
    let right = paired(other_addresses, other_amounts);
    assert forall|address: Seq<char>| #[trigger]
        left.contains_key(address) == right.contains_key(address) by {
        lemma_paired_keys(addresses, amounts, address);
        lemma_paired_keys(other_addresses, other_amounts, address);
        if addresses.contains(address) {
            let i = choose|i: int| 0 <= i < addresses.len() && addresses[i] == address;
            let j = choose|j: int|
                0 <= j < other_addresses.len() && other_addresses[j] == addresses[i]
                    && other_amounts[j] == amounts[i];
            assert(other_addresses[j] == address);
        }
        if other_addresses.contains(address) {
            let j = choose|j: int| 0 <= j < other_addresses.len() && other_addresses[j] == address;
            let i = choose|i: int|
                0 <= i < addresses.len() && addresses[i] == other_addresses[j] && amounts[i]
                    == other_amounts[j];
            assert(addresses[i] == address);
        }
    }
    assert forall|address: Seq<char>| #[trigger] left.contains_key(address) implies left[address]
        == right[address] by {
        lemma_paired_keys(addresses, amounts, address);
        let i = choose|i: int| 0 <= i < addresses.len() && addresses[i] == address;
        lemma_paired_distinct(addresses, amounts, i);
        let j = choose|j: int|
            0 <= j < other_addresses.len() && other_addresses[j] == addresses[i]
                && other_amounts[j] == amounts[i];
        lemma_paired_distinct(other_addresses, other_amounts, j);
    }
    assert(left =~= right);
}

/// Pairs each recipient address with the amount at the same position.
pub fn get_addresses_and_amounts_from_cli_args(
    addresses: &Vec<String>,
    amounts: &Vec<u64>,
) -> (pairing: BtcAddressesAndAmounts)
    requires
        addresses.len() <= amounts.len(),
    ensures
        pairing@ == paired(string_views(addresses@), amounts@),
        forall|address: Seq<char>|
            pairing@.contains_key(address) <==> string_views(addresses@).contains(address),
        forall|i: int|
            is_last_occurrence(string_views(addresses@), i) ==> pairing@[#[trigger] string_views(
                addresses@,
            )[i]] == amounts[i],
{
    let ghost views = string_views(addresses@);
    let mut pairing = BtcAddressesAndAmounts::new();
    let mut i: usize = 0;
    while i < addresses.len()
        invariant
            i <= addresses.len() <= amounts.len(),
            views == string_views(addresses@),
            pairing@ == paired(views.take(i as int), amounts@),
        decreases addresses.len() - i,
    {
        proof {
            let next = views.take(i + 1);
            assert(next.drop_last() =~= views.take(i as int));
            assert(next.last() == addresses@[i as int]@);
        }
        pairing.insert(addresses[i].clone(), amounts[i]);
        i = i + 1;
    }
    proof {
        assert(views.take(i as int) =~= views);
        assert forall|address: Seq<char>|
            pairing@.contains_key(address) <==> views.contains(address) by {
            lemma_paired_keys(views, amounts@, address);
        }
        assert forall|k: int| is_last_occurrence(views, k) implies pairing@[#[trigger] views[k]]
            == amounts[k] by {
            lemma_paired_last_wins(views, amounts@, k);
        }
    }
    pairing
}

/// The typed record of the parsed arguments: one field for every key of the
/// grammar, whichever sub-command was given.
#[allow(non_snake_case)]
#[derive(Clone, Debug, PartialEq)]
pub struct CliArgs {
    pub flag_nonce: u64,
    pub flag_fee: usize,
    pub arg_data: String,
    pub cmd_getUtxos: bool,
    pub arg_to: Vec<String>,
    pub flag_change: String,
    pub flag_network: String,
    pub arg_amount: Vec<u64>,
    pub flag_keyfile: String,
    pub flag_logLevel: String,
    pub arg_recipient: String,
    pub arg_btcAddress: String,
    pub cmd_makeOnlineTx: bool,
    pub arg_ethAddress: String,
    pub arg_tx_id: Vec<String>,
    pub cmd_makeOfflineTx: bool,
    pub arg_utxos: Option<String>,
    pub arg_utxo_indices: Vec<u32>,
    pub cmd_getUtxosForAddress: bool,
    pub flag_utxoFile: Option<String>,
    pub cmd_makeOnlineOpReturnTx: bool,
    pub cmd_makeOfflineOpReturnTx: bool,
    pub cmd_getPBTCDepositAddress: bool,
    pub flag_outputPath: Option<String>,
}

/// One for a selected sub-command, zero for one that is not.
fn count_if(selected: bool) -> (count: u8)
    ensures
        count == one_if(selected),
{
    if selected {
        1
    } else {
        0
    }
}

/// One for a selected sub-command, zero for one that is not.
pub open spec fn one_if(selected: bool) -> int {
    if selected {
        1
    } else {
        0
    }
}

/// The output indices as `u64` numbers, one for one.
pub open spec fn widened(indices: Seq<u32>) -> Seq<u64> {
    indices.map_values(|n: u32| n as u64)
}

impl CliArgs {
    /// How many sub-commands the record selects.
    pub open spec fn command_count(&self) -> int {
        one_if(self.cmd_getUtxos)
            + one_if(self.cmd_makeOnlineTx)
            + one_if(self.cmd_makeOfflineTx)
            + one_if(self.cmd_getUtxosForAddress)
            + one_if(self.cmd_makeOnlineOpReturnTx)
            + one_if(self.cmd_makeOfflineOpReturnTx)
            + one_if(self.cmd_getPBTCDepositAddress)
    }

    /// Every field holds what the matched values give for its key: a command
    /// whether it was given, a text as it stands, an optional text where it is
    /// present, a number as the text writes it.
    pub open spec fn reflects(&self, values: KeyValues) -> bool {
        &&& bounded_number_of((values.text)("--nonce"@), u64::MAX) == Some(self.flag_nonce)
        &&& bounded_number_of((values.text)("--fee"@), usize::MAX as u64) == Some(
            self.flag_fee as u64,
        )
        &&& self.arg_data@ == (values.text)("<data>"@)
        &&& self.cmd_getUtxos == (values.present)("getUtxos"@)
        &&& string_views(self.arg_to@) == (values.texts)("<to>"@)
        &&& self.flag_change@ == (values.text)("--change"@)
        &&& self.flag_network@ == (values.text)("--network"@)
        &&& numbers_match(self.arg_amount@, (values.texts)("<amount>"@), u64::MAX)
        &&& self.flag_keyfile@ == (values.text)("--keyfile"@)
        &&& self.flag_logLevel@ == (values.text)("--logLevel"@)
        &&& self.arg_recipient@ == (values.text)("<recipient>"@)
        &&& self.arg_btcAddress@ == (values.text)("<btcAddress>"@)
        &&& self.cmd_makeOnlineTx == (values.present)("makeOnlineTx"@)
        &&& self.arg_ethAddress@ == (values.text)("<ethAddress>"@)
        &&& string_views(self.arg_tx_id@) == (values.texts)("<tx-id>"@)
        &&& self.cmd_makeOfflineTx == (values.present)("makeOfflineTx"@)
        &&& option_view(self.arg_utxos) == optional_text(values, "<utxos>"@)
        &&& numbers_match(
            widened(self.arg_utxo_indices@),
            (values.texts)("<utxo-indices>"@),
            u32::MAX as u64,
        )
        &&& self.cmd_getUtxosForAddress == (values.present)("getUtxosForAddress"@)
        &&& option_view(self.flag_utxoFile) == optional_text(values, "--utxoFile"@)
        &&& self.cmd_makeOnlineOpReturnTx == (values.present)("makeOnlineOpReturnTx"@)
        &&& self.cmd_makeOfflineOpReturnTx == (values.present)("makeOfflineOpReturnTx"@)
        &&& self.cmd_getPBTCDepositAddress == (values.present)("getPBTCDepositAddress"@)
        &&& option_view(self.flag_outputPath) == optional_text(values, "--outputPath"@)
    }

    /// Tells whether exactly one sub-command is selected.
    pub fn has_one_command(&self) -> (yes: bool)
        ensures
            yes == (self.command_count() == 1),
    {
        let count: u8 = count_if(self.cmd_getUtxos)
            + count_if(self.cmd_makeOnlineTx)
            + count_if(self.cmd_makeOfflineTx)
            + count_if(self.cmd_getUtxosForAddress)
            + count_if(self.cmd_makeOnlineOpReturnTx)
            + count_if(self.cmd_makeOfflineOpReturnTx)
            + count_if(self.cmd_getPBTCDepositAddress);
        count == 1
    }
}

/// How many sub-commands the matched values select.
pub open spec fn selected_commands(values: KeyValues) -> int {
    one_if((values.present)("getUtxos"@))
        + one_if((values.present)("makeOnlineTx"@))
        + one_if((values.present)("makeOfflineTx"@))
        + one_if((values.present)("getUtxosForAddress"@))
        + one_if((values.present)("makeOnlineOpReturnTx"@))
        + one_if((values.present)("makeOfflineOpReturnTx"@))
        + one_if((values.present)("getPBTCDepositAddress"@))
}

/// The matched values make a record: every numeric text writes a number of
/// its field's type, and exactly one sub-command is selected.
pub open spec fn accepts(values: KeyValues) -> bool {
    &&& bounded_number_of((values.text)("--nonce"@), u64::MAX) is Some
    &&& bounded_number_of((values.text)("--fee"@), usize::MAX as u64) is Some
    &&& all_bounded_numbers((values.texts)("<amount>"@), u64::MAX)
    &&& all_bounded_numbers((values.texts)("<utxo-indices>"@), u32::MAX as u64)
    &&& selected_commands(values) == 1
}

/// The message is the one owed for values that make no record: it names the
/// first numeric text, in the order nonce, fee, amounts, output indices, that
/// writes no number of its field's type; where every number is well written,
/// it says that the arguments are invalid. The fee is read as a `u64` first
/// and must then fit the machine's `usize`.
pub open spec fn failure_message_fits(values: KeyValues, message: Seq<char>) -> bool {
    let nonce = (values.text)("--nonce"@);
    let fee = (values.text)("--fee"@);
    let amounts = (values.texts)("<amount>"@);
    let indices = (values.texts)("<utxo-indices>"@);
    if bounded_number_of(nonce, u64::MAX) is None {
        message == coercion_failure_message(nonce, "u64"@, "--nonce"@)
    } else if bounded_number_of(fee, u64::MAX) is None {
        message == coercion_failure_message(fee, "u64"@, "--fee"@)
    } else if bounded_number_of(fee, usize::MAX as u64) is None {
        message == coercion_failure_message(fee, "usize"@, "--fee"@)
    } else if !all_bounded_numbers(amounts, u64::MAX) {
        exists|i: int|
            #[trigger] is_first_failure(amounts, u64::MAX, i) && message
                == coercion_failure_message(amounts[i], "u64"@, "<amount>"@)
    } else if !all_bounded_numbers(indices, u32::MAX as u64) {
        exists|i: int|
            #[trigger] is_first_failure(indices, u32::MAX as u64, i) && message
                == coercion_failure_message(indices[i], "u32"@, "<utxo-indices>"@)
    } else {
        message == DOCOPT_ERROR_PREFIX@ + "Invalid arguments."@
    }
}

/// Narrows numbers that fit into `u32`.
fn narrowed(numbers: &Vec<u64>) -> (indices: Vec<u32>)
    requires
        forall|i: int| 0 <= i < numbers@.len() ==> numbers@[i] <= u32::MAX,
    ensures
        widened(indices@) == numbers@,
{
    let mut indices: Vec<u32> = Vec::new();
    let mut i: usize = 0;
    while i < numbers.len()
        invariant
            i <= numbers.len(),
            indices@.len() == i,
            forall|j: int| 0 <= j < numbers@.len() ==> numbers@[j] <= u32::MAX,
            forall|j: int| 0 <= j < i ==> indices@[j] as u64 == numbers@[j],
        decreases numbers.len() - i,
    {
        indices.push(numbers[i] as u32);
        i = i + 1;
    }
    proof {
        assert(widened(indices@) =~= numbers@);
    }
    indices
}

/// Builds the record from the values of a successful match. It fails, with
/// the parse failure that `failure_message_fits` describes, exactly when a
/// numeric text writes no number of its field's type or when the values do
/// not select exactly one sub-command; no record with some fields unset is
/// ever returned.
pub fn cli_args_from_argv_map(values: &ArgvMap) -> (args: Result<CliArgs>)
    ensures
        args is Ok <==> accepts(values_of_map(*values)),
        args is Ok ==> args->Ok_0.reflects(values_of_map(*values)) && args->Ok_0.command_count()
            == 1,
        args is Err ==> is_parse_failure(args->Err_0) && failure_message_fits(
            values_of_map(*values),
            args->Err_0->Custom_0@,
        ),
{
    let flag_nonce = match number_field(values, "--nonce", u64::MAX, "u64") {
        Ok(n) => n,
        Err(e) => {
            return Err(e);
        },
    };
    let flag_fee = match number_field(values, "--fee", u64::MAX, "u64") {
        Ok(n) => {
            if n > usize::MAX as u64 {
                return Err(coercion_failure(get_str(values, "--fee"), "usize", "--fee"));
            }
            n as usize
        },
        Err(e) => {
            return Err(e);
        },
    };
    let arg_amount = match number_list_field(values, "<amount>", u64::MAX, "u64") {
        Ok(v) => v,
        Err(e) => {
            return Err(e);
        },
    };
    let indices = number_list_field(values, "<utxo-indices>", u32::MAX as u64, "u32");
    let arg_utxo_indices = match indices {
        Ok(v) => {
            assert forall|i: int| 0 <= i < v@.len() implies v@[i] <= u32::MAX by {
                assert(bounded_number_of(
                    argv_map_vec(*values, "<utxo-indices>"@)[i],
                    u32::MAX as u64,
                ) == Some(v@[i]));
            }
            narrowed(&v)
        },
        Err(e) => {
            return Err(e);
        },
    };
    let args = CliArgs {
        flag_nonce,
        flag_fee,
        arg_data: string_field(values, "<data>"),
        cmd_getUtxos: get_bool(values, "getUtxos"),
        arg_to: list_field(values, "<to>"),
        flag_change: string_field(values, "--change"),
        flag_network: string_field(values, "--network"),
        arg_amount,
        flag_keyfile: string_field(values, "--keyfile"),
        flag_logLevel: string_field(values, "--logLevel"),
        arg_recipient: string_field(values, "<recipient>"),
        arg_btcAddress: string_field(values, "<btcAddress>"),
        cmd_makeOnlineTx: get_bool(values, "makeOnlineTx"),
        arg_ethAddress: string_field(values, "<ethAddress>"),
        arg_tx_id: list_field(values, "<tx-id>"),
        cmd_makeOfflineTx: get_bool(values, "makeOfflineTx"),
        arg_utxos: optional_field(values, "<utxos>"),
        arg_utxo_indices,
        cmd_getUtxosForAddress: get_bool(values, "getUtxosForAddress"),
        flag_utxoFile: optional_field(values, "--utxoFile"),
        cmd_makeOnlineOpReturnTx: get_bool(values, "makeOnlineOpReturnTx"),
        cmd_makeOfflineOpReturnTx: get_bool(values, "makeOfflineOpReturnTx"),
        cmd_getPBTCDepositAddress: get_bool(values, "getPBTCDepositAddress"),
        flag_outputPath: optional_field(values, "--outputPath"),
    };
    if args.has_one_command() {
        Ok(args)
    } else {
        Err(parse_failure("Invalid arguments."))
    }
}

/// Parses an argument list, whose first entry is the program's name, against
/// the grammar. Where the grammar does not match the list, the result is a
/// parse failure. Where it matches, the result goes by the values that the
/// match assigns to the grammar's keys: the whole record that reflects them,
/// or the parse failure for the first numeric text that writes no number.
pub fn get_cli_args(argv: &Vec<String>) -> (args: Result<CliArgs>)
    ensures
        !grammar_matches(USAGE_INFO@, string_views(argv@)) ==> args is Err,
        grammar_matches(USAGE_INFO@, string_views(argv@)) ==> ({
            let matched = values_of_match(USAGE_INFO@, string_views(argv@));
            &&& args is Ok <==> accepts(matched)
            &&& args is Ok ==> args->Ok_0.reflects(matched)
            &&& args is Err ==> failure_message_fits(matched, args->Err_0->Custom_0@)
        }),
        args is Ok ==> args->Ok_0.command_count() == 1,
        args is Err ==> is_parse_failure(args->Err_0),
{
    match parse_argv(USAGE_INFO, argv) {
        Ok(values) => {
            proof {
                let read = values_of_map(values);
                let matched = values_of_match(USAGE_INFO@, string_views(argv@));
                assert(read.present =~= matched.present);
                assert(read.text =~= matched.text);
                assert(read.texts =~= matched.texts);
                assert(read == matched);
            }
            cli_args_from_argv_map(&values)
        },
        Err(e) => Err(parse_failure(error_message(&e).as_str())),
    }
}

} // verus!
