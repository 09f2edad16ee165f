use vstd::prelude::*;
use vstd::hash_map::StringHashMap;

verus! {

pub type Result<T> = std::result::Result<T, crate::errors::AppError>;

/// Recipient addresses mapped to the amount each is to receive.
pub type BtcAddressesAndAmounts = StringHashMap<u64>;

/// The Bitcoin network a transaction is built for.
#[derive(Clone, Copy, Debug, PartialEq, Eq, Structural)]
pub enum BtcNetwork {
    Testnet,
    MainNet,
}

} // verus!
