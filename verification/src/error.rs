//! Application errors and the JSON-RPC errors that they are reported as.

use crate::text;
use crate::types::rpc::{JsonValue, RpcResponse};
use crate::types::wallet::KaspaWalletError;
use vstd::prelude::*;
use vstd::string::*;

verus! {

/// Application error type.
#[derive(Debug)]
pub enum AppError {
    /// A failure in loading or parsing configuration.
    ConfigError(String),
    /// An invalid L2 transaction format.
    InvalidTransactionFormat,
    /// A failed call to the IGRA EL client, with the transport's own message.
    ElCallError(String),
    /// A failed call to the KASPA wallet.
    WalletCallError,
    /// The requested RPC method is not allowed.
    MethodNotAllowed(String),
    /// The data for an IGRA payload is invalid.
    InvalidPayload(String),
    /// A failure during payload serialization.
    SerializationError(String),
    /// A wallet operation failure.
    WalletError(String),
    /// A JSON-RPC error.
    JsonRpcError(JsonValue),
    /// An internal error.
    Internal(String),
    /// UTXO exhaustion: no funds to send.
    UtxoExhausted,
    /// Retry attempts have been exhausted.
    RetryExhausted { attempts: u32, reason: String },
    /// A write operation was attempted in read-only mode.
    ReadOnlyMode,
}

impl AppError {
    /// The message of the error.
    pub open spec fn message(self) -> Seq<char> {
        match self {
            AppError::ConfigError(s) => "Configuration error: "@ + s@,
            AppError::InvalidTransactionFormat => "Invalid L2 transaction format"@,
            AppError::ElCallError(_) => "IGRA EL Client call failed"@,
            AppError::WalletCallError => "KASPA Wallet call failed"@,
            AppError::MethodNotAllowed(_) => "RPC method not allowed"@,
            AppError::InvalidPayload(s) => "Invalid IGRA payload data: "@ + s@,
            AppError::SerializationError(s) => "Payload serialization error: "@ + s@,
            AppError::WalletError(s) => "Wallet error: "@ + s@,
            AppError::JsonRpcError(v) => "JSON-RPC error: "@ + v.text(),
            AppError::Internal(s) => "Internal error: "@ + s@,
            AppError::UtxoExhausted => "UTXO exhausted: no funds available to send"@,
            AppError::RetryExhausted { attempts, reason } => "Retry exhausted after "@
                + text::decimal_text(attempts as nat) + " attempts: "@ + reason@,
            AppError::ReadOnlyMode => "Read-only mode is enabled"@,
        }
    }

    /// The JSON-RPC error code of the error.
    pub open spec fn rpc_code(self) -> int {
        match self {
            AppError::ConfigError(_) => -32000,
            AppError::InvalidTransactionFormat => -32001,
            AppError::ElCallError(_) => -32000,
            AppError::WalletCallError => -32005,
            AppError::MethodNotAllowed(_) => -32002,
            AppError::InvalidPayload(_) => -32003,
            AppError::SerializationError(_) => -32004,
            AppError::WalletError(_) => -32012,
            AppError::JsonRpcError(_) => -32000,
            AppError::Internal(_) => -32000,
            AppError::UtxoExhausted => -32014,
            AppError::RetryExhausted { .. } => -32015,
            AppError::ReadOnlyMode => -32000,
        }
    }

    /// The message under which the error is reported to a client. It differs
    /// from `message` for a refused method and for an invalid payload.
    pub open spec fn rpc_message(self) -> Seq<char> {
        match self {
            AppError::MethodNotAllowed(method) => "RPC method not allowed: "@ + method@,
            AppError::InvalidPayload(s) => "Invalid IGRA payload: "@ + s@,
            _ => self.message(),
        }
    }

    /// Writes the message of the error.
    pub fn to_string(&self) -> (r: String)
        ensures
            r@ == self.message(),
    {
        match self {
            AppError::ConfigError(s) => text::concat2("Configuration error: ", s.as_str()),
            AppError::InvalidTransactionFormat => String::from_str("Invalid L2 transaction format"),
            AppError::ElCallError(_) => String::from_str("IGRA EL Client call failed"),
            AppError::WalletCallError => String::from_str("KASPA Wallet call failed"),
            AppError::MethodNotAllowed(_) => String::from_str("RPC method not allowed"),
            AppError::InvalidPayload(s) => text::concat2("Invalid IGRA payload data: ", s.as_str()),
            AppError::SerializationError(s) => text::concat2(
                "Payload serialization error: ",
                s.as_str(),
            ),
            AppError::WalletError(s) => text::concat2("Wallet error: ", s.as_str()),
            AppError::JsonRpcError(v) => text::concat2("JSON-RPC error: ", v.to_string().as_str()),
            AppError::Internal(s) => text::concat2("Internal error: ", s.as_str()),
            AppError::UtxoExhausted => String::from_str(
                "UTXO exhausted: no funds available to send",
            ),
            AppError::RetryExhausted { attempts, reason } => text::concat4(
                "Retry exhausted after ",
                text::decimal(*attempts as u128).as_str(),
                " attempts: ",
                reason.as_str(),
            ),
            AppError::ReadOnlyMode => String::from_str("Read-only mode is enabled"),
        }
    }

    /// Converts the error into a JSON-RPC error response.
    ///
    /// `id` is the identifier of the request that failed.
    pub fn to_json_rpc_error(&self, id: JsonValue) -> (r: RpcResponse)
        ensures
            r.is_error(id, self.rpc_code(), self.rpc_message()),
    {
        let code: i64 = match self {
            AppError::ConfigError(_) => -32000,
            AppError::InvalidTransactionFormat => -32001,
            AppError::ElCallError(_) => -32000,
            AppError::WalletCallError => -32005,
            AppError::MethodNotAllowed(_) => -32002,
            AppError::InvalidPayload(_) => -32003,
            AppError::SerializationError(_) => -32004,
            AppError::WalletError(_) => -32012,
            AppError::JsonRpcError(_) => -32000,
            AppError::Internal(_) => -32000,
            AppError::UtxoExhausted => -32014,
            AppError::RetryExhausted { .. } => -32015,
            AppError::ReadOnlyMode => -32000,
        };
        let message = match self {
            AppError::MethodNotAllowed(method) => text::concat2(
                "RPC method not allowed: ",
                method.as_str(),
            ),
            AppError::InvalidPayload(s) => text::concat2("Invalid IGRA payload: ", s.as_str()),
            _ => self.to_string(),
        };
        RpcResponse::error(id, code, message)
    }
}

impl From<KaspaWalletError> for AppError {
    fn from(err: KaspaWalletError) -> (r: AppError)
        ensures
            r matches AppError::WalletError(m) && m@ == match err {
                KaspaWalletError::UserInputError(msg) => "User input error: "@ + msg@,
                KaspaWalletError::InternalServerError(msg) => "Internal server error: "@ + msg@,
            },
    {
        match err {
            KaspaWalletError::UserInputError(msg) => AppError::WalletError(
                text::concat2("User input error: ", msg.as_str()),
            ),
            KaspaWalletError::InternalServerError(msg) => AppError::WalletError(
                text::concat2("Internal server error: ", msg.as_str()),
            ),
        }
    }
}

/// The contract of `from` stands at the function itself.
impl vstd::std_specs::convert::FromSpecImpl<KaspaWalletError> for AppError {
    open spec fn obeys_from_spec() -> bool {
        false
    }

    open spec fn from_spec(err: KaspaWalletError) -> AppError {
        AppError::WalletCallError
    }
}

/// An error that is given a reason is reported with it: the message ends with the
/// reason. The error of a failed call to the execution layer is reported without
/// the message of the transport, so that it shows nothing of the inner network.
pub proof fn reasons_are_reported(error: AppError, reason: String, other: String)
    requires
        error == AppError::ConfigError(reason) || error == AppError::MethodNotAllowed(reason)
            || error == AppError::InvalidPayload(reason) || error == AppError::SerializationError(
            reason,
        ) || error == AppError::WalletError(reason) || error == AppError::Internal(reason),
    ensures
        error.rpc_message().len() > reason@.len(),
        error.rpc_message().skip(error.rpc_message().len() - reason@.len()) == reason@,
        AppError::ElCallError(reason).rpc_message() == AppError::ElCallError(other).rpc_message(),
{
    reveal_strlit("Configuration error: ");
    reveal_strlit("RPC method not allowed: ");
    reveal_strlit("Invalid IGRA payload: ");
    reveal_strlit("Payload serialization error: ");
    reveal_strlit("Wallet error: ");
    reveal_strlit("Internal error: ");
    let all = error.rpc_message();
    assert(all.skip(all.len() - reason@.len()) =~= reason@);
}

/// Refused methods, malformed transactions, wallet trouble, an exhausted wallet
/// and exhausted retries each have a code of their own.
pub proof fn codes_tell_errors_apart(error: AppError)
    ensures
        error.rpc_code() == -32001 <==> error is InvalidTransactionFormat,
        error.rpc_code() == -32002 <==> error is MethodNotAllowed,
        error.rpc_code() == -32003 <==> error is InvalidPayload,
        error.rpc_code() == -32004 <==> error is SerializationError,
        error.rpc_code() == -32005 <==> error is WalletCallError,
        error.rpc_code() == -32012 <==> error is WalletError,
        error.rpc_code() == -32014 <==> error is UtxoExhausted,
        error.rpc_code() == -32015 <==> error is RetryExhausted,
        error is ConfigError || error is ElCallError || error is JsonRpcError || error is Internal
            || error is ReadOnlyMode ==> error.rpc_code() == -32000,
{
}

} // verus!
