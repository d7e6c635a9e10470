//! Errors of the transaction path.

use crate::text;
use crate::types::rpc::{JsonValue, RpcResponse};
use vstd::prelude::*;
use vstd::string::*;

verus! {

/// Why a transaction was not accepted.
#[derive(Debug)]
pub enum TransactionError {
    /// The transaction cannot be decoded or has an unsupported type.
    InvalidTransactionFormat(String),
    /// A fee is below the required minimum; both amounts in wei.
    InsufficientGasFee { required: String, provided: String },
    /// The priority fee exceeds the maximum fee; all amounts in wei.
    Eip1559ValidationFailed {
        max_fee_per_gas: String,
        max_priority_fee_per_gas: String,
        min_protocol_fee: String,
    },
    /// The processing queue does not take the transaction.
    QueueFull { capacity: usize },
    /// The transaction was not processed in time.
    ProcessingTimeout { timeout_seconds: u64 },
    /// An internal failure.
    InternalError(String),
}

impl TransactionError {
    /// The message of the error.
    pub open spec fn message(self) -> Seq<char> {
        match self {
            TransactionError::InvalidTransactionFormat(reason) => "Invalid transaction format: "@
                + reason@,
            TransactionError::InsufficientGasFee { required, provided } =>
                "Insufficient gas fee: required "@ + required@ + " wei, provided "@ + provided@
                + " wei"@,
            TransactionError::Eip1559ValidationFailed {
                max_fee_per_gas,
                max_priority_fee_per_gas,
                min_protocol_fee,
            } => "EIP-1559 validation failed: max_fee_per_gas "@ + max_fee_per_gas@
                + " wei, max_priority_fee_per_gas "@ + max_priority_fee_per_gas@
                + " wei, min_protocol_fee "@ + min_protocol_fee@ + " wei"@,
            TransactionError::QueueFull { capacity } => "Transaction queue is full (capacity "@
                + text::decimal_text(capacity as nat) + ")"@,
            TransactionError::ProcessingTimeout { timeout_seconds } =>
                "Transaction processing timed out after "@ + text::decimal_text(
                timeout_seconds as nat,
            ) + " seconds"@,
            TransactionError::InternalError(reason) => "Internal error: "@ + reason@,
        }
    }

    /// The JSON-RPC error code of the error.
    pub open spec fn rpc_code(self) -> int {
        match self {
            TransactionError::InvalidTransactionFormat(_) => -32001,
            TransactionError::InsufficientGasFee { .. } => -32000,
            TransactionError::Eip1559ValidationFailed { .. } => -32000,
            TransactionError::QueueFull { .. } => -32005,
            TransactionError::ProcessingTimeout { .. } => -32000,
            TransactionError::InternalError(_) => -32603,
        }
    }

    /// Whether this is the format error with the given reason.
    pub open spec fn is_format_error(self, reason: Seq<char>) -> bool {
        self matches TransactionError::InvalidTransactionFormat(r) && r@ == reason
    }

    /// Whether this is the error for a fee below the minimum.
    pub open spec fn is_insufficient_fee(self, required: nat, provided: nat) -> bool {
        &&& self matches TransactionError::InsufficientGasFee { required: r, provided: p }
        &&& r@ == text::decimal_text(required)
        &&& p@ == text::decimal_text(provided)
    }

    /// Whether this is the error for a priority fee above the maximum fee.
    pub open spec fn is_eip1559_error(self, max_fee: nat, priority_fee: nat, min_fee: nat) -> bool {
        &&& self matches TransactionError::Eip1559ValidationFailed {
            max_fee_per_gas: m,
            max_priority_fee_per_gas: p,
            min_protocol_fee: f,
        }
        &&& m@ == text::decimal_text(max_fee)
        &&& p@ == text::decimal_text(priority_fee)
        &&& f@ == text::decimal_text(min_fee)
    }

    /// The error for a transaction that cannot be decoded or is unsupported.
    pub fn invalid_transaction_format(reason: String) -> (r: TransactionError)
        ensures
            r == TransactionError::InvalidTransactionFormat(reason),
    {
        TransactionError::InvalidTransactionFormat(reason)
    }

    /// The error for a fee below the required minimum.
    pub fn insufficient_gas_fee(required: String, provided: String) -> (r: TransactionError)
        ensures
            r == (TransactionError::InsufficientGasFee { required, provided }),
    {
        TransactionError::InsufficientGasFee { required, provided }
    }

    /// The error for a priority fee above the maximum fee.
    pub fn eip1559_validation_failed(
        max_fee_per_gas: String,
        max_priority_fee_per_gas: String,
        min_protocol_fee: String,
    ) -> (r: TransactionError)
        ensures
            r == (TransactionError::Eip1559ValidationFailed {
                max_fee_per_gas,
                max_priority_fee_per_gas,
                min_protocol_fee,
            }),
    {
        TransactionError::Eip1559ValidationFailed {
            max_fee_per_gas,
            max_priority_fee_per_gas,
            min_protocol_fee,
        }
    }

    /// The error for a queue that does not take a transaction.
    pub fn queue_full(capacity: usize) -> (r: TransactionError)
        ensures
            r == (TransactionError::QueueFull { capacity }),
    {
        TransactionError::QueueFull { capacity }
    }

    /// The error for a transaction that was not processed in time.
    pub fn processing_timeout(timeout_seconds: u64) -> (r: TransactionError)
        ensures
            r == (TransactionError::ProcessingTimeout { timeout_seconds }),
    {
        TransactionError::ProcessingTimeout { timeout_seconds }
    }

    /// Writes the message of the error.
    pub fn to_string(&self) -> (r: String)
        ensures
            r@ == self.message(),
    {
        match self {
            TransactionError::InvalidTransactionFormat(reason) => text::concat2(
                "Invalid transaction format: ",
                reason.as_str(),
            ),
            TransactionError::InsufficientGasFee { required, provided } => text::concat5(
                "Insufficient gas fee: required ",
                required.as_str(),
                " wei, provided ",
                provided.as_str(),
                " wei",
            ),
            TransactionError::Eip1559ValidationFailed {
                max_fee_per_gas,
                max_priority_fee_per_gas,
                min_protocol_fee,
            } => {
                let head = text::concat5(
                    "EIP-1559 validation failed: max_fee_per_gas ",
                    max_fee_per_gas.as_str(),
                    " wei, max_priority_fee_per_gas ",
                    max_priority_fee_per_gas.as_str(),
                    " wei, min_protocol_fee ",
                );
                text::concat3(head.as_str(), min_protocol_fee.as_str(), " wei")
            },
            TransactionError::QueueFull { capacity } => text::concat3(
                "Transaction queue is full (capacity ",
                text::decimal(*capacity as u128).as_str(),
                ")",
            ),
            TransactionError::ProcessingTimeout { timeout_seconds } => text::concat3(
                "Transaction processing timed out after ",
                text::decimal(*timeout_seconds as u128).as_str(),
                " seconds",
            ),
            TransactionError::InternalError(reason) => text::concat2(
                "Internal error: ",
                reason.as_str(),
            ),
        }
    }

    /// Converts the error into a JSON-RPC error response.
    pub fn to_json_rpc_error(&self, id: JsonValue) -> (r: RpcResponse)
        ensures
            r.is_error(id, self.rpc_code(), self.message()),
    {
        let code: i64 = match self {
            TransactionError::InvalidTransactionFormat(_) => -32001,
            TransactionError::InsufficientGasFee { .. } => -32000,
            TransactionError::Eip1559ValidationFailed { .. } => -32000,
            TransactionError::QueueFull { .. } => -32005,
            TransactionError::ProcessingTimeout { .. } => -32000,
            TransactionError::InternalError(_) => -32603,
        };
        RpcResponse::error(id, code, self.to_string())
    }
}

/// The message of a refused fee names the required and the provided amount, and
/// the code of an error tells a malformed transaction from one that is refused.
pub proof fn fee_errors_name_both_amounts(error: TransactionError, required: nat, provided: nat)
    requires
        error.is_insufficient_fee(required, provided),
    ensures
        error.message() == "Insufficient gas fee: required "@ + text::decimal_text(required)
            + " wei, provided "@ + text::decimal_text(provided) + " wei"@,
        error.rpc_code() == -32000,
{
}

/// A format error is reported with its reason, under the code for malformed
/// transactions, which no other error has.
pub proof fn format_errors_have_their_own_code(error: TransactionError, reason: Seq<char>)
    ensures
        error.is_format_error(reason) ==> error.message() == "Invalid transaction format: "@
            + reason,
        error.rpc_code() == -32001 <==> error is InvalidTransactionFormat,
{
}

} // verus!
