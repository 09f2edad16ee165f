use vstd::prelude::*;

verus! {

/// Base URL of the block explorer whose API serves UTXO look-ups.
pub const BLOCK_EXPLORER_URL: &'static str = "https://blockstream.info/";

/// Prefix of every message that reports a failure of the argument parser.
pub const DOCOPT_ERROR_PREFIX: &'static str = "\u{2718} Docopt error: ";

} // verus!
