//! Command-line argument handling for a Bitcoin transaction-construction tool:
//! the argument grammar, the typed record of parsed arguments, and the pure
//! derivations (network, nonce, explorer endpoint, recipient amounts) that turn
//! raw argument values into domain values.

pub mod constants;
pub mod errors;
pub mod types;
pub mod clock;
pub mod usage_info;
pub mod parser;
pub mod numbers;
pub mod fields;
pub mod get_cli_args;
