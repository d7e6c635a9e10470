//! Transaction type numbers of Ethereum transactions.

use vstd::prelude::*;

verus! {

/// Legacy transaction.
pub const LEGACY: u8 = 0;

/// EIP-2930 (access list).
pub const EIP2930: u8 = 1;

/// EIP-1559 (fee market).
pub const EIP1559: u8 = 2;

/// EIP-4844 (blob transactions).
pub const BLOB: u8 = 3;

} // verus!
