use vstd::prelude::*;

verus! {

/// The argument grammar: every sub-command with its positional arguments, and
/// every option with its default. The sub-commands exclude one another. Each
/// key of the grammar but `--help` is the source of one field of the argument
/// record.
pub const USAGE_INFO: &'static str = "
Bitcoin transaction maker

Usage:  btc_tx_maker --help
        btc_tx_maker getUtxos <btcAddress> [(<tx-id> <utxo-indices>)...] [options]
        btc_tx_maker getUtxosForAddress <btcAddress> [options]
        btc_tx_maker makeOnlineTx (<to> <amount>)... [options]
        btc_tx_maker makeOfflineTx (<utxos> | --utxoFile=<path>) (<to> <amount>)... [options]
        btc_tx_maker makeOnlineOpReturnTx <data> (<to> <amount>)... [options]
        btc_tx_maker makeOfflineOpReturnTx <data> (<utxos> | --utxoFile=<path>) (<to> <amount>)... [options]
        btc_tx_maker getPBTCDepositAddress <ethAddress> [<recipient>] [options]

Commands:
    getUtxos                Fetch the UTXOs of <btcAddress>, all of them or the listed ones.
    getUtxosForAddress      Fetch the UTXOs of <btcAddress> through the block explorer.
    makeOnlineTx            Build a transaction from UTXOs fetched from the block explorer.
    makeOfflineTx           Build a transaction from the UTXOs in <utxos> or in the UTXO file.
    makeOnlineOpReturnTx    As makeOnlineTx, with <data> in an OP_RETURN output.
    makeOfflineOpReturnTx   As makeOfflineTx, with <data> in an OP_RETURN output.
    getPBTCDepositAddress   Derive the deposit address for <ethAddress>.

Arguments:
    <btcAddress>            A Bitcoin address.
    <ethAddress>            An Ethereum address.
    <recipient>             The address a deposit is credited to.
    <to>                    A recipient address, one per amount.
    <amount>                An amount in satoshis, one per recipient.
    <data>                  The payload of an OP_RETURN output.
    <utxos>                 UTXOs as a JSON string.
    <tx-id>                 The id of a transaction holding a wanted UTXO.
    <utxo-indices>          The output index of a wanted UTXO in its transaction.

Options:
    --help                  Show this message.
    --fee=<uint>            Fee in satoshis per byte [default: 23].
    --nonce=<uint>          Nonce of a deposit address; 0 takes the current time [default: 0].
    --change=<address>      Address that receives the change [default: signer].
    --network=<string>      The network, Bitcoin or Testnet [default: Bitcoin].
    --keyfile=<path>        Path of the encrypted private key [default: ./private-key.gpg].
    --logLevel=<level>      One of none, info, debug, trace, error or warn [default: none].
    --utxoFile=<path>       Path of a file holding UTXOs as JSON.
    --outputPath=<path>     Path of the file the output is saved to.
";

} // verus!
