//! What the fee rules read of a decoded Ethereum transaction.

use vstd::prelude::*;

verus! {

/// A decoded Ethereum transaction, reduced to its kind and its fee fields.
#[derive(Debug, Clone, Copy, PartialEq, Eq)]
pub enum TxEnvelope {
    /// A legacy transaction.
    Legacy { gas_price: u128 },
    /// An EIP-2930 transaction.
    Eip2930 { gas_price: u128 },
    /// An EIP-1559 transaction.
    Eip1559 { max_fee_per_gas: u128, max_priority_fee_per_gas: u128 },
    /// An EIP-4844 blob transaction.
    Eip4844,
    /// An EIP-7702 transaction.
    Eip7702,
}

} // verus!
