//! Submission of base-layer transactions through the wallet daemon.
//!
//! The daemon is called by the application; this module decides what is asked
//! of it, what its answers mean and what comes next.

use crate::bytes;
use crate::clients::lane_check;
use crate::config::igra::IgraConfig;
use crate::config::retry;
use crate::config::retry::RetryConfig;
use crate::config::wallet::WalletConfig;
use crate::error::AppError;
use crate::outside;
use crate::text;
use crate::types::wallet::{WalletSignableTransaction, SUBNETWORK_ID_SIZE};
use vstd::prelude::*;
use vstd::string::*;

verus! {

/// Seconds after which a call of the daemon is given up.
pub const GRPC_TIMEOUT_SECS: u64 = 30;

/// The gRPC status code for an exhausted resource.
pub const RESOURCE_EXHAUSTED: i32 = 8;

/// Parameters for creating a transaction.
#[derive(Debug)]
pub struct TransactionParams {
    pub to_address: String,
    pub amount: u64,
    pub is_send_all: bool,
    pub payload: Vec<u8>,
    pub l2_transaction_hash: Option<String>,
}

impl TransactionParams {
    /// Parameters for an entry transaction, which sends an amount.
    pub fn entry_transaction(to_address: String, amount: u64, payload: Vec<u8>) -> (r: Self)
        ensures
            r.to_address == to_address,
            r.amount == amount,
            !r.is_send_all,
            r.payload == payload,
            r.l2_transaction_hash is None,
    {
        TransactionParams {
            to_address,
            amount,
            is_send_all: false,
            payload,
            l2_transaction_hash: None,
        }
    }

    /// Parameters for an L2 transaction, which sends all funds to an address.
    pub fn send_all(
        to_address: String,
        payload: Vec<u8>,
        transaction_hash: Option<String>,
    ) -> (r: Self)
        ensures
            r.to_address == to_address,
            r.amount == 0,
            r.is_send_all,
            r.payload == payload,
            r.l2_transaction_hash == transaction_hash,
    {
        TransactionParams {
            to_address,
            amount: 0,
            is_send_all: true,
            payload,
            l2_transaction_hash: transaction_hash,
        }
    }
}

/// What the daemon is asked to create, with the daemon's own types `U` for an
/// output to spend and `F` for a fee policy.
#[derive(Debug, PartialEq, Eq)]
pub struct TransactionDescription<U, F> {
    pub to_address: String,
    pub amount: u64,
    pub is_send_all: bool,
    pub payload: Vec<u8>,
    /// Addresses to spend from; any where there is none.
    pub from_addresses: Vec<String>,
    /// Outputs to spend; any where there is none.
    pub utxos: Vec<U>,
    pub use_existing_change_address: bool,
    /// How the fee is set; left to the daemon where absent.
    pub fee_policy: Option<F>,
}

/// Whether `r` describes to the daemon what is submitted.
pub open spec fn describes<U, F>(
    params: TransactionParams,
    r: TransactionDescription<U, F>,
) -> bool {
    &&& r.to_address@ == params.to_address@
    &&& r.amount == params.amount
    &&& r.is_send_all == params.is_send_all
    &&& r.payload@ == params.payload@
    &&& r.from_addresses@.len() == 0
    &&& r.utxos@.len() == 0
    &&& r.use_existing_change_address
    &&& r.fee_policy is None
}

/// A failed gRPC call, as far as it is looked into.
#[derive(Debug, PartialEq, Eq)]
pub struct GrpcStatus {
    /// The numeric status code.
    pub code: i32,
    /// The message of the status.
    pub message: String,
    /// The status as it is displayed.
    pub text: String,
}

/// Whether a lower-case message says that there is nothing left to spend.
pub open spec fn message_means_no_funds(lower: Seq<char>) -> bool {
    ||| text::is_substring(lower, "no funds"@)
    ||| text::is_substring(lower, "utxo exhausted"@)
    ||| text::is_substring(lower, "insufficient utxo"@)
}

impl GrpcStatus {
    /// Whether the status says that there is nothing left to spend: by its code,
    /// or by its message in any letter case.
    pub open spec fn means_no_funds(self) -> bool {
        self.code == RESOURCE_EXHAUSTED || message_means_no_funds(
            outside::lowercase_of(self.message@),
        )
    }
}

/// Whether a lower-case message says that there is nothing left to spend.
pub fn reports_no_funds(lower: &str) -> (r: bool)
    ensures
        r == message_means_no_funds(lower@),
{
    text::contains_text(lower, "no funds") || text::contains_text(lower, "utxo exhausted")
        || text::contains_text(lower, "insufficient utxo")
}

/// Why a wallet call failed.
#[derive(Debug)]
pub enum WalletCallerError {
    /// The connection failed, with the transport's own message.
    ConnectionFailed(String),
    AddressGenerationFailed(GrpcStatus),
    PasswordNotSet,
    PasswordInvalidUnicode,
    TransactionCreationFailed(GrpcStatus),
    TransactionSigningFailed(GrpcStatus),
    TransactionBroadcastFailed(GrpcStatus),
    /// An error of the application, such as exhausted retries.
    WalletDaemonError(AppError),
    LaneValidationFailed(String),
    NoTransactionIds,
    GrpcTimeout { operation: &'static str, timeout_seconds: u64 },
}

impl WalletCallerError {
    /// The message of the error.
    pub open spec fn message(self) -> Seq<char> {
        match self {
            WalletCallerError::ConnectionFailed(e) => "Failed to connect to wallet daemon: "@ + e@,
            WalletCallerError::AddressGenerationFailed(e) => "Failed to generate new address: "@
                + e.text@,
            WalletCallerError::PasswordNotSet =>
                "Wallet password environment variable KASWALLET_PASSWORD is not set"@,
            WalletCallerError::PasswordInvalidUnicode =>
                "Wallet password environment variable KASWALLET_PASSWORD contains invalid Unicode"@,
            WalletCallerError::TransactionCreationFailed(e) =>
                "Failed to create unsigned transactions: "@ + e.text@,
            WalletCallerError::TransactionSigningFailed(e) => "Failed to sign transactions: "@
                + e.text@,
            WalletCallerError::TransactionBroadcastFailed(e) =>
                "Failed to broadcast transactions: "@ + e.text@,
            WalletCallerError::WalletDaemonError(e) => "Wallet daemon error: "@ + e.message(),
            WalletCallerError::LaneValidationFailed(reason) => "IGRA lane validation failed: "@
                + reason@,
            WalletCallerError::NoTransactionIds => "No transaction IDs returned from broadcast"@,
            WalletCallerError::GrpcTimeout { operation, timeout_seconds } => "Wallet gRPC call '"@
                + operation@ + "' timed out after "@ + text::decimal_text(timeout_seconds as nat)
                + "s"@,
        }
    }

    /// Whether the error says that there is nothing left to spend, so that a
    /// later attempt may succeed.
    pub open spec fn is_exhaustion(self) -> bool {
        self matches WalletCallerError::TransactionCreationFailed(status)
            && status.means_no_funds()
    }

    /// Whether this is the error for exhausted retries.
    pub open spec fn is_retry_exhausted(self, attempts: u32, reason: Seq<char>) -> bool {
        self matches WalletCallerError::WalletDaemonError(AppError::RetryExhausted {
            attempts: a,
            reason: m,
        }) && a == attempts && m@ == reason
    }

    /// Writes the message of the error.
    pub fn to_string(&self) -> (r: String)
        ensures
            r@ == self.message(),
    {
        match self {
            WalletCallerError::ConnectionFailed(e) => text::concat2(
                "Failed to connect to wallet daemon: ",
                e.as_str(),
            ),
            WalletCallerError::AddressGenerationFailed(e) => text::concat2(
                "Failed to generate new address: ",
                e.text.as_str(),
            ),
            WalletCallerError::PasswordNotSet => String::from_str(
                "Wallet password environment variable KASWALLET_PASSWORD is not set",
            ),
            WalletCallerError::PasswordInvalidUnicode => String::from_str(
                "Wallet password environment variable KASWALLET_PASSWORD contains invalid Unicode",
            ),
            WalletCallerError::TransactionCreationFailed(e) => text::concat2(
                "Failed to create unsigned transactions: ",
                e.text.as_str(),
            ),
            WalletCallerError::TransactionSigningFailed(e) => text::concat2(
                "Failed to sign transactions: ",
                e.text.as_str(),
            ),
            WalletCallerError::TransactionBroadcastFailed(e) => text::concat2(
                "Failed to broadcast transactions: ",
                e.text.as_str(),
            ),
            WalletCallerError::WalletDaemonError(e) => text::concat2(
                "Wallet daemon error: ",
                e.to_string().as_str(),
            ),
            WalletCallerError::LaneValidationFailed(reason) => text::concat2(
                "IGRA lane validation failed: ",
                reason.as_str(),
            ),
            WalletCallerError::NoTransactionIds => String::from_str(
                "No transaction IDs returned from broadcast",
            ),
            WalletCallerError::GrpcTimeout { operation, timeout_seconds } => text::concat5(
                "Wallet gRPC call '",
                *operation,
                "' timed out after ",
                text::decimal(*timeout_seconds as u128).as_str(),
                "s",
            ),
        }
    }
}

/// Whether `e` is the application error that stands for a wallet error.
pub open spec fn reported_as(err: WalletCallerError, e: AppError) -> bool {
    match err {
        WalletCallerError::ConnectionFailed(m) => is_wallet_error(e, "Connection failed: "@ + m@),
        WalletCallerError::AddressGenerationFailed(s) => is_wallet_error(
            e,
            "Address generation failed: "@ + s.text@,
        ),
        WalletCallerError::PasswordNotSet => is_wallet_error(e, "Password not set"@),
        WalletCallerError::PasswordInvalidUnicode => is_wallet_error(
            e,
            "Password invalid unicode"@,
        ),
        WalletCallerError::TransactionCreationFailed(s) => if s.means_no_funds() {
            e is UtxoExhausted
        } else {
            is_wallet_error(e, "Transaction creation failed: "@ + s.text@)
        },
        WalletCallerError::TransactionSigningFailed(s) => is_wallet_error(
            e,
            "Transaction signing failed: "@ + s.text@,
        ),
        WalletCallerError::TransactionBroadcastFailed(s) => is_wallet_error(
            e,
            "Transaction broadcast failed: "@ + s.text@,
        ),
        WalletCallerError::WalletDaemonError(inner) => e == inner,
        WalletCallerError::LaneValidationFailed(reason) => is_wallet_error(
            e,
            "IGRA lane validation failed: "@ + reason@,
        ),
        WalletCallerError::NoTransactionIds => is_wallet_error(e, "No transaction IDs returned"@),
        WalletCallerError::GrpcTimeout { operation, timeout_seconds } => is_wallet_error(
            e,
            "Wallet gRPC "@ + operation@ + " timed out after "@ + text::decimal_text(
                timeout_seconds as nat,
            ) + "s"@,
        ),
    }
}

/// Whether `e` is the wallet error with the given text.
pub open spec fn is_wallet_error(e: AppError, reason: Seq<char>) -> bool {
    e matches AppError::WalletError(m) && m@ == reason
}

impl From<WalletCallerError> for AppError {
    fn from(err: WalletCallerError) -> (r: AppError)
        ensures
            reported_as(err, r),
    {
        match err {
            WalletCallerError::ConnectionFailed(e) => AppError::WalletError(
                text::concat2("Connection failed: ", e.as_str()),
            ),
            WalletCallerError::AddressGenerationFailed(e) => AppError::WalletError(
                text::concat2("Address generation failed: ", e.text.as_str()),
            ),
            WalletCallerError::PasswordNotSet => AppError::WalletError(
                String::from_str("Password not set"),
            ),
            WalletCallerError::PasswordInvalidUnicode => AppError::WalletError(
                String::from_str("Password invalid unicode"),
            ),
            WalletCallerError::TransactionCreationFailed(e) => {
                if WalletCaller::is_no_funds_error(&e) {
                    AppError::UtxoExhausted
                } else {
                    AppError::WalletError(
                        text::concat2("Transaction creation failed: ", e.text.as_str()),
                    )
                }
            },
            WalletCallerError::TransactionSigningFailed(e) => AppError::WalletError(
                text::concat2("Transaction signing failed: ", e.text.as_str()),
            ),
            WalletCallerError::TransactionBroadcastFailed(e) => AppError::WalletError(
                text::concat2("Transaction broadcast failed: ", e.text.as_str()),
            ),
            WalletCallerError::WalletDaemonError(e) => e,
            WalletCallerError::LaneValidationFailed(reason) => AppError::WalletError(
                text::concat2("IGRA lane validation failed: ", reason.as_str()),
            ),
            WalletCallerError::NoTransactionIds => AppError::WalletError(
                String::from_str("No transaction IDs returned"),
            ),
            WalletCallerError::GrpcTimeout { operation, timeout_seconds } => AppError::WalletError(
                text::concat5(
                    "Wallet gRPC ",
                    operation,
                    " timed out after ",
                    text::decimal(timeout_seconds as u128).as_str(),
                    "s",
                ),
            ),
        }
    }
}

/// The contract of `from` stands at the function itself.
impl vstd::std_specs::convert::FromSpecImpl<WalletCallerError> for AppError {
    open spec fn obeys_from_spec() -> bool {
        false
    }

    open spec fn from_spec(err: WalletCallerError) -> AppError {
        AppError::WalletCallError
    }
}

/// What came back from a call of the daemon.
#[derive(Debug)]
pub enum GrpcReply<T> {
    /// The daemon answered.
    Answer(T),
    /// The call failed.
    Failed(GrpcStatus),
    /// There was no answer in time.
    TimedOut,
}

/// What a reply to a request to create unsigned transactions means.
pub open spec fn creation_result<T>(reply: GrpcReply<T>) -> Result<T, WalletCallerError> {
    match reply {
        GrpcReply::Answer(t) => Ok(t),
        GrpcReply::Failed(s) => Err(WalletCallerError::TransactionCreationFailed(s)),
        GrpcReply::TimedOut => Err(
            WalletCallerError::GrpcTimeout {
                operation: "create_unsigned_transactions",
                timeout_seconds: GRPC_TIMEOUT_SECS,
            },
        ),
    }
}

/// Reads the reply to a request to create unsigned transactions.
pub fn creation_outcome<T>(reply: GrpcReply<T>) -> (r: Result<T, WalletCallerError>)
    ensures
        r == creation_result(reply),
{
    match reply {
        GrpcReply::Answer(t) => Ok(t),
        GrpcReply::Failed(s) => Err(WalletCallerError::TransactionCreationFailed(s)),
        GrpcReply::TimedOut => Err(
            WalletCallerError::GrpcTimeout {
                operation: "create_unsigned_transactions",
                timeout_seconds: GRPC_TIMEOUT_SECS,
            },
        ),
    }
}

/// Reads the reply to a request to sign transactions.
pub fn signing_outcome<T>(reply: GrpcReply<T>) -> (r: Result<T, WalletCallerError>)
    ensures
        r == match reply {
            GrpcReply::Answer(t) => Ok(t),
            GrpcReply::Failed(s) => Err(WalletCallerError::TransactionSigningFailed(s)),
            GrpcReply::TimedOut => Err(
                (WalletCallerError::GrpcTimeout {
                    operation: "sign",
                    timeout_seconds: GRPC_TIMEOUT_SECS,
                }),
            ),
        },
{
    match reply {
        GrpcReply::Answer(t) => Ok(t),
        GrpcReply::Failed(s) => Err(WalletCallerError::TransactionSigningFailed(s)),
        GrpcReply::TimedOut => Err(
            WalletCallerError::GrpcTimeout { operation: "sign", timeout_seconds: GRPC_TIMEOUT_SECS },
        ),
    }
}

/// Reads the reply to a request to broadcast transactions.
pub fn broadcast_outcome<T>(reply: GrpcReply<T>) -> (r: Result<T, WalletCallerError>)
    ensures
        r == match reply {
            GrpcReply::Answer(t) => Ok(t),
            GrpcReply::Failed(s) => Err(WalletCallerError::TransactionBroadcastFailed(s)),
            GrpcReply::TimedOut => Err(
                (WalletCallerError::GrpcTimeout {
                    operation: "broadcast",
                    timeout_seconds: GRPC_TIMEOUT_SECS,
                }),
            ),
        },
{
    match reply {
        GrpcReply::Answer(t) => Ok(t),
        GrpcReply::Failed(s) => Err(WalletCallerError::TransactionBroadcastFailed(s)),
        GrpcReply::TimedOut => Err(
            WalletCallerError::GrpcTimeout {
                operation: "broadcast",
                timeout_seconds: GRPC_TIMEOUT_SECS,
            },
        ),
    }
}

/// What was found where the wallet password is kept.
#[derive(Debug)]
pub enum PasswordLookup {
    Found(String),
    NotPresent,
    NotUnicode,
}

/// What the provider knows of one wallet daemon.
#[derive(Debug)]
pub struct WalletCaller {
    /// The address to send to.
    pub to_address: String,
    /// The password of the wallet.
    pub password: String,
    /// The lane on which transactions must be.
    pub lane_id: [u8; SUBNETWORK_ID_SIZE],
}

/// Whether `r` is the wallet that is set up from its configuration, the answer to
/// a request for a new address, where there was one, and the password.
pub open spec fn wallet_set_up(
    wallet_config: WalletConfig,
    igra_config: IgraConfig,
    new_address: Option<Result<String, GrpcStatus>>,
    password: PasswordLookup,
    r: Result<WalletCaller, WalletCallerError>,
) -> bool {
    let address: Result<Seq<char>, GrpcStatus> = if wallet_config.to_address@.len() == 0 {
        match new_address->0 {
            Ok(a) => Ok(a@),
            Err(s) => Err(s),
        }
    } else {
        Ok(wallet_config.to_address@)
    };
    match address {
        Err(s) => r == Err::<WalletCaller, _>(WalletCallerError::AddressGenerationFailed(s)),
        Ok(a) => match password {
            PasswordLookup::NotPresent => r == Err::<WalletCaller, _>(
                WalletCallerError::PasswordNotSet,
            ),
            PasswordLookup::NotUnicode => r == Err::<WalletCaller, _>(
                WalletCallerError::PasswordInvalidUnicode,
            ),
            PasswordLookup::Found(p) => r matches Ok(w) && w.to_address@ == a && w.password == p
                && w.lane_id == igra_config.lane_id,
        },
    }
}

impl WalletCaller {
    /// Whether the daemon must be asked for an address to send to.
    pub fn needs_new_address(wallet_config: &WalletConfig) -> (r: bool)
        ensures
            r == (wallet_config.to_address@.len() == 0),
    {
        wallet_config.to_address.as_str().unicode_len() == 0
    }

    /// Sets up a wallet from its configuration, the daemon's answer to a request
    /// for a new address, where there was one, and the password.
    ///
    /// The new address is used only where the configuration names none.
    pub fn new(
        wallet_config: &WalletConfig,
        igra_config: &IgraConfig,
        new_address: Option<Result<String, GrpcStatus>>,
        password: PasswordLookup,
    ) -> (r: Result<Self, WalletCallerError>)
        requires
            wallet_config.to_address@.len() == 0 ==> new_address is Some,
        ensures
            wallet_set_up(*wallet_config, *igra_config, new_address, password, r),
    {
        let to_address = if Self::needs_new_address(wallet_config) {
            match new_address {
                Some(Ok(address)) => address,
                Some(Err(status)) => return Err(WalletCallerError::AddressGenerationFailed(status)),
                None => String::new(),
            }
        } else {
            wallet_config.to_address.clone()
        };
        match password {
            PasswordLookup::NotPresent => Err(WalletCallerError::PasswordNotSet),
            PasswordLookup::NotUnicode => Err(WalletCallerError::PasswordInvalidUnicode),
            PasswordLookup::Found(password) => Ok(
                WalletCaller { to_address, password, lane_id: igra_config.lane_id() },
            ),
        }
    }

    /// The address to send to.
    pub fn default_to_address(&self) -> (r: &str)
        ensures
            r@ == self.to_address@,
    {
        self.to_address.as_str()
    }

    /// Whether a status says that there is nothing left to spend.
    pub fn is_no_funds_error(status: &GrpcStatus) -> (r: bool)
        ensures
            r == status.means_no_funds(),
    {
        let lower = outside::lowercase(status.message.as_str());
        status.code == RESOURCE_EXHAUSTED || reports_no_funds(lower.as_str())
    }

    /// Whether an error says that there is nothing left to spend.
    pub fn is_utxo_exhaustion_error(error: &WalletCallerError) -> (r: bool)
        ensures
            r == error.is_exhaustion(),
    {
        match error {
            WalletCallerError::TransactionCreationFailed(status) => Self::is_no_funds_error(status),
            _ => false,
        }
    }

    /// Validates every transaction that the daemon returned, before signing.
    pub fn validate_lane_transaction(
        &self,
        txs: &[WalletSignableTransaction],
        expected_payload: &[u8],
    ) -> (r: Result<(), String>)
        ensures
            match r {
                Ok(_) => lane_check::batch_flaw(txs@, self.lane_id@, expected_payload@) is None,
                Err(m) => lane_check::batch_flaw(txs@, self.lane_id@, expected_payload@) == Some(
                    m@,
                ),
            },
    {
        lane_check::validate_lane_transaction(txs, expected_payload, &self.lane_id)
    }

    /// Starts the submission of a transaction.
    pub fn create_sign_and_broadcast_igra_lane_transaction(
        &self,
        transaction_params: TransactionParams,
        retry_config: &RetryConfig,
    ) -> (r: CreationStep)
        ensures
            creation_started(*retry_config, transaction_params, self.lane_id@, r),
    {
        LaneSubmission::start(transaction_params, retry_config, self.lane_id)
    }
}

/// A submission for which the daemon is asked to create transactions.
#[derive(Debug)]
pub struct LaneSubmission {
    params: TransactionParams,
    attempt: u32,
    max_attempts: u32,
    initial_delay_ms: u64,
    max_delay_ms: u64,
    lane_id: [u8; SUBNETWORK_ID_SIZE],
}

/// Transactions that passed validation and are to be signed.
#[derive(Debug)]
pub struct CheckedBatch {
    transactions: Vec<WalletSignableTransaction>,
    payload: Vec<u8>,
    lane_id: [u8; SUBNETWORK_ID_SIZE],
}

/// What the daemon returned for transactions that it was asked to sign after
/// they passed validation.
#[derive(Debug)]
pub struct SignedBatch<T> {
    checked: CheckedBatch,
    signed: T,
}

/// What comes next while transactions are created.
#[derive(Debug)]
pub enum CreationStep {
    /// Ask the daemon to create transactions.
    Request(LaneSubmission),
    /// Wait, then ask the daemon again.
    RetryAfter { delay_ms: u64, submission: LaneSubmission },
    /// Have the daemon sign the transactions that it returned.
    Sign(CheckedBatch),
    /// Give up.
    Fail(WalletCallerError),
}

/// What comes next once the daemon was asked to sign.
#[derive(Debug)]
pub enum SigningStep<T> {
    /// Have the daemon broadcast the signed transactions.
    Broadcast(SignedBatch<T>),
    /// Give up.
    Fail(WalletCallerError),
}

/// Whether `r` is the first step of a submission.
pub open spec fn creation_started(
    retry_config: RetryConfig,
    params: TransactionParams,
    lane_id: Seq<u8>,
    r: CreationStep,
) -> bool {
    if retry_config.max_attempts == 0 {
        r matches CreationStep::Fail(e) && e.is_retry_exhausted(
            0,
            "UTXO exhaustion (no error captured)"@,
        )
    } else {
        &&& r matches CreationStep::Request(s)
        &&& s.params_view() == params
        &&& s.attempt_view() == 1
        &&& s.retry_view() == retry_config
        &&& s.lane_view() == lane_id
    }
}

/// Whether `r` is the step that follows an answer to an attempt: valid
/// transactions are signed, others refused; an exhausted wallet is asked again
/// as long as attempts are left; any other error is final.
pub open spec fn creation_answered(
    s: LaneSubmission,
    outcome: Result<Seq<WalletSignableTransaction>, WalletCallerError>,
    sample: u128,
    r: CreationStep,
) -> bool {
    match outcome {
        Ok(txs) => match lane_check::batch_flaw(txs, s.lane_view(), s.params_view().payload@) {
            None => {
                &&& r matches CreationStep::Sign(batch)
                &&& batch.transactions_view() == txs
                &&& batch.payload_view() == s.params_view().payload@
                &&& batch.lane_view() == s.lane_view()
            },
            Some(reason) => r matches CreationStep::Fail(WalletCallerError::LaneValidationFailed(m))
                && m@ == reason,
        },
        Err(e) => if !e.is_exhaustion() {
            r == CreationStep::Fail(e)
        } else if s.attempt_view() < s.retry_view().max_attempts {
            &&& r matches CreationStep::RetryAfter { delay_ms, submission }
            &&& delay_ms == retry::jittered_delay(
                s.retry_view().delay_ms(s.attempt_view()) as u64,
                sample,
            )
            &&& submission.params_view() == s.params_view()
            &&& submission.attempt_view() == s.attempt_view() + 1
            &&& submission.retry_view() == s.retry_view()
            &&& submission.lane_view() == s.lane_view()
        } else {
            r matches CreationStep::Fail(f) && f.is_retry_exhausted(
                s.retry_view().max_attempts,
                "UTXO exhaustion"@,
            )
        },
    }
}

/// Whether `r` is how a submission ends with the reply to its broadcast.
pub open spec fn broadcast_ended(
    reply: GrpcReply<Vec<String>>,
    r: Result<String, WalletCallerError>,
) -> bool {
    match reply {
        GrpcReply::Answer(ids) => if ids@.len() == 0 {
            r == Err::<String, _>(WalletCallerError::NoTransactionIds)
        } else {
            r == Ok::<_, WalletCallerError>(ids@.last())
        },
        GrpcReply::Failed(s) => r == Err::<String, _>(
            WalletCallerError::TransactionBroadcastFailed(s),
        ),
        GrpcReply::TimedOut => r == Err::<String, _>(
            (WalletCallerError::GrpcTimeout {
                operation: "broadcast",
                timeout_seconds: GRPC_TIMEOUT_SECS,
            }),
        ),
    }
}

/// The view of an outcome with a list of transactions.
pub open spec fn listed(
    outcome: Result<Vec<WalletSignableTransaction>, WalletCallerError>,
) -> Result<Seq<WalletSignableTransaction>, WalletCallerError> {
    match outcome {
        Ok(txs) => Ok(txs@),
        Err(e) => Err(e),
    }
}

impl LaneSubmission {
    /// What is submitted.
    pub closed spec fn params_view(self) -> TransactionParams {
        self.params
    }

    /// The number of the current attempt, counted from one.
    pub closed spec fn attempt_view(self) -> u32 {
        self.attempt
    }

    /// The retry rules of the submission.
    pub closed spec fn retry_view(self) -> RetryConfig {
        RetryConfig {
            max_attempts: self.max_attempts,
            initial_delay_ms: self.initial_delay_ms,
            max_delay_ms: self.max_delay_ms,
        }
    }

    /// The lane on which the transactions must be.
    pub closed spec fn lane_view(self) -> Seq<u8> {
        self.lane_id@
    }

    /// The attempts of a submission stay within what the retry rules allow.
    #[verifier::type_invariant]
    closed spec fn within_attempts(self) -> bool {
        1 <= self.attempt <= self.max_attempts
    }

    /// Starts a submission.
    pub fn start(
        params: TransactionParams,
        retry_config: &RetryConfig,
        lane_id: [u8; SUBNETWORK_ID_SIZE],
    ) -> (r: CreationStep)
        ensures
            creation_started(*retry_config, params, lane_id@, r),
    {
        if retry_config.max_attempts == 0 {
            return CreationStep::Fail(
                WalletCallerError::WalletDaemonError(
                    AppError::RetryExhausted {
                        attempts: 0,
                        reason: String::from_str("UTXO exhaustion (no error captured)"),
                    },
                ),
            );
        }
        CreationStep::Request(
            LaneSubmission {
                params,
                attempt: 1,
                max_attempts: retry_config.max_attempts,
                initial_delay_ms: retry_config.initial_delay_ms,
                max_delay_ms: retry_config.max_delay_ms,
                lane_id,
            },
        )
    }

    /// What the daemon is to be asked for.
    pub fn params(&self) -> (r: &TransactionParams)
        ensures
            *r == self.params_view(),
    {
        &self.params
    }

    /// Describes to the daemon what it is to create: funds may come from any
    /// address and any output, change goes to an existing address, and the fee
    /// is left to the daemon.
    pub fn create_unsigned_transaction<U, F>(&self) -> (r: TransactionDescription<U, F>)
        ensures
            describes(self.params_view(), r),
    {
        TransactionDescription {
            to_address: self.params.to_address.clone(),
            amount: self.params.amount,
            is_send_all: self.params.is_send_all,
            payload: bytes::copied(self.params.payload.as_slice()),
            from_addresses: Vec::new(),
            utxos: Vec::new(),
            use_existing_change_address: true,
            fee_policy: None,
        }
    }

    /// The number of the current attempt, counted from one.
    pub fn attempt(&self) -> (r: u32)
        ensures
            r == self.attempt_view(),
            1 <= r <= self.retry_view().max_attempts,
    {
        proof {
            use_type_invariant(self);
        }
        self.attempt
    }

    /// Decides what follows an answer of the daemon, given a random sample for
    /// the delay before the next attempt.
    pub fn answered(
        self,
        outcome: Result<Vec<WalletSignableTransaction>, WalletCallerError>,
        sample: u128,
    ) -> (r: CreationStep)
        ensures
            creation_answered(self, listed(outcome), sample, r),
    {
        proof {
            use_type_invariant(&self);
        }
        let retry_config = RetryConfig {
            max_attempts: self.max_attempts,
            initial_delay_ms: self.initial_delay_ms,
            max_delay_ms: self.max_delay_ms,
        };
        match outcome {
            Ok(transactions) => {
                match lane_check::validate_lane_transaction(
                    transactions.as_slice(),
                    self.params.payload.as_slice(),
                    &self.lane_id,
                ) {
                    Ok(_) => CreationStep::Sign(
                        CheckedBatch {
                            transactions,
                            payload: self.params.payload,
                            lane_id: self.lane_id,
                        },
                    ),
                    Err(reason) => CreationStep::Fail(
                        WalletCallerError::LaneValidationFailed(reason),
                    ),
                }
            },
            Err(e) => {
                if !WalletCaller::is_utxo_exhaustion_error(&e) {
                    return CreationStep::Fail(e);
                }
                if self.attempt < self.max_attempts {
                    let delay_ms: u64 = retry_config.calculate_delay_ms(self.attempt);
                    CreationStep::RetryAfter {
                        delay_ms: retry::jittered(delay_ms, sample),
                        submission: LaneSubmission {
                            params: self.params,
                            attempt: self.attempt + 1,
                            max_attempts: self.max_attempts,
                            initial_delay_ms: self.initial_delay_ms,
                            max_delay_ms: self.max_delay_ms,
                            lane_id: self.lane_id,
                        },
                    }
                } else {
                    CreationStep::Fail(
                        WalletCallerError::WalletDaemonError(
                            AppError::RetryExhausted {
                                attempts: self.max_attempts,
                                reason: String::from_str("UTXO exhaustion"),
                            },
                        ),
                    )
                }
            },
        }
    }

    /// Decides what follows a reply of the daemon, with a random part in the
    /// delay before the next attempt.
    pub fn create_unsigned_transaction_with_retry(
        self,
        reply: GrpcReply<Vec<WalletSignableTransaction>>,
    ) -> (r: CreationStep)
        ensures
            exists|sample: u128|
                outside::is_v4(sample) && #[trigger] creation_answered(
                    self,
                    listed(creation_result(reply)),
                    sample,
                    r,
                ),
    {
        let sample: u128 = outside::random_uuid();
        let outcome = creation_outcome(reply);
        let step = self.answered(outcome, sample);
        assert(creation_answered(self, listed(creation_result(reply)), sample, step));
        step
    }
}

impl CheckedBatch {
    /// The transactions that passed validation.
    pub closed spec fn transactions_view(self) -> Seq<WalletSignableTransaction> {
        self.transactions@
    }

    /// The payload that was expected.
    pub closed spec fn payload_view(self) -> Seq<u8> {
        self.payload@
    }

    /// The lane that was expected.
    pub closed spec fn lane_view(self) -> Seq<u8> {
        self.lane_id@
    }

    /// Only transactions without a flaw get here.
    #[verifier::type_invariant]
    closed spec fn is_checked(self) -> bool {
        lane_check::batch_flaw(self.transactions@, self.lane_id@, self.payload@) is None
    }

    /// The transactions to sign; none of them has a flaw.
    pub fn transactions(&self) -> (r: &Vec<WalletSignableTransaction>)
        ensures
            r@ == self.transactions_view(),
            lane_check::batch_flaw(r@, self.lane_view(), self.payload_view()) is None,
    {
        proof {
            use_type_invariant(self);
        }
        &self.transactions
    }

    /// Decides what follows the reply to the request to sign: what the daemon
    /// signed is what is broadcast.
    pub fn sign_transactions<T>(self, reply: GrpcReply<T>) -> (r: SigningStep<T>)
        ensures
            match reply {
                GrpcReply::Answer(signed) => {
                    &&& r matches SigningStep::Broadcast(batch)
                    &&& batch.checked_view() == self
                    &&& batch.signed_view() == signed
                },
                GrpcReply::Failed(s) => r == SigningStep::<T>::Fail(
                    WalletCallerError::TransactionSigningFailed(s),
                ),
                GrpcReply::TimedOut => r == SigningStep::<T>::Fail(
                    (WalletCallerError::GrpcTimeout {
                        operation: "sign",
                        timeout_seconds: GRPC_TIMEOUT_SECS,
                    }),
                ),
            },
    {
        match signing_outcome(reply) {
            Ok(signed) => SigningStep::Broadcast(SignedBatch { checked: self, signed }),
            Err(e) => SigningStep::Fail(e),
        }
    }
}

impl<T> SignedBatch<T> {
    /// The transactions that the daemon was asked to sign.
    pub closed spec fn checked_view(self) -> CheckedBatch {
        self.checked
    }

    /// What the daemon signed.
    pub closed spec fn signed_view(self) -> T {
        self.signed
    }

    /// What is to be broadcast: what the daemon signed.
    pub fn signed(&self) -> (r: &T)
        ensures
            *r == self.signed_view(),
    {
        &self.signed
    }

    /// Decides the end of a submission from the reply to the broadcast: the id
    /// of the last transaction.
    pub fn broadcast_transactions(self, reply: GrpcReply<Vec<String>>) -> (r: Result<
        String,
        WalletCallerError,
    >)
        ensures
            broadcast_ended(reply, r),
    {
        match broadcast_outcome(reply) {
            Ok(ids) => {
                if ids.len() == 0 {
                    return Err(WalletCallerError::NoTransactionIds);
                }
                let last: usize = ids.len() - 1;
                Ok(ids[last].clone())
            },
            Err(e) => Err(e),
        }
    }
}

/// The step towards signing is taken exactly for transactions that fit the lane
/// and carry the payload, and the batch to sign holds just the transactions that
/// the daemon created.
pub proof fn only_checked_batches_are_signed(
    s: LaneSubmission,
    outcome: Result<Seq<WalletSignableTransaction>, WalletCallerError>,
    sample: u128,
    r: CreationStep,
)
    requires
        creation_answered(s, outcome, sample, r),
    ensures
        r is Sign <==> (outcome matches Ok(txs) && {
            &&& txs.len() > 0
            &&& forall|i: int|
                0 <= i < txs.len() ==> lane_check::fits_lane(#[trigger] txs[i], s.lane_view())
            &&& txs.last().partial_body()->0.payload@ == s.params_view().payload@
        }),
        r matches CreationStep::Sign(batch) ==> outcome == Ok::<_, WalletCallerError>(
            batch.transactions_view(),
        ),
{
    if let Ok(txs) = outcome {
        lane_check::lane_validation_is_exact(txs, s.lane_view(), s.params_view().payload@);
    }
}

/// Another attempt is made exactly where the wallet was exhausted and attempts
/// are left; it is one more attempt of the same submission, within the limit,
/// after a delay of at most five quarters of the configured cap.
pub proof fn retries_stay_within_the_limit(
    s: LaneSubmission,
    outcome: Result<Seq<WalletSignableTransaction>, WalletCallerError>,
    sample: u128,
    r: CreationStep,
)
    requires
        creation_answered(s, outcome, sample, r),
    ensures
        r is RetryAfter <==> (outcome matches Err(e) && e.is_exhaustion() && s.attempt_view()
            < s.retry_view().max_attempts),
        r matches CreationStep::RetryAfter { delay_ms, submission } ==> {
            &&& submission.attempt_view() == s.attempt_view() + 1
            &&& submission.attempt_view() <= s.retry_view().max_attempts
            &&& submission.params_view() == s.params_view()
            &&& submission.lane_view() == s.lane_view()
            &&& 4 * delay_ms <= 5 * s.retry_view().max_delay_ms
        },
{
    if let CreationStep::RetryAfter { delay_ms, submission } = r {
        retry::backoff_grows_to_the_cap(s.retry_view(), s.attempt_view(), s.attempt_view());
        retry::backoff_grows_to_the_cap(s.retry_view(), 0, s.attempt_view());
        let delay = s.retry_view().delay_ms(s.attempt_view());
        let spread = delay / 4;
        vstd::arithmetic::div_mod::lemma_mod_bound(sample as int, 2 * spread + 1);
    }
}

/// Every error is reported to the client under one of the codes for wallet
/// trouble, unless it carries an application error of its own.
pub proof fn wallet_errors_have_wallet_codes(err: WalletCallerError, e: AppError)
    requires
        reported_as(err, e),
        !(err is WalletDaemonError),
    ensures
        e.rpc_code() == if err.is_exhaustion() {
            -32014
        } else {
            -32012
        },
{
}

/// An exhausted wallet is recognised by the status code for exhausted resources,
/// and by a message that says so anywhere in it; a status that does neither is
/// another error.
pub proof fn exhaustion_is_recognised(status: GrpcStatus, before: Seq<char>, after: Seq<char>)
    ensures
        status.code == 8 ==> status.means_no_funds(),
        message_means_no_funds(before + "no funds"@ + after),
        message_means_no_funds(before + "utxo exhausted"@ + after),
        message_means_no_funds(before + "insufficient utxo"@ + after),
        status.code != 8 ==> (status.means_no_funds() <==> {
            let lower = outside::lowercase_of(status.message@);
            ||| text::is_substring(lower, "no funds"@)
            ||| text::is_substring(lower, "utxo exhausted"@)
            ||| text::is_substring(lower, "insufficient utxo"@)
        }),
{
    text::occurrences_split_a_text(before, "no funds"@, after, before);
    text::occurrences_split_a_text(before, "utxo exhausted"@, after, before);
    text::occurrences_split_a_text(before, "insufficient utxo"@, after, before);
}

/// A submission starts with its first attempt, unless no attempt is allowed.
pub proof fn submissions_start_with_the_first_attempt(
    retry_config: RetryConfig,
    params: TransactionParams,
    lane_id: Seq<u8>,
    r: CreationStep,
)
    requires
        creation_started(retry_config, params, lane_id, r),
    ensures
        r is Request <==> retry_config.max_attempts > 0,
        r is Fail <==> retry_config.max_attempts == 0,
        r matches CreationStep::Request(s) ==> s.attempt_view() == 1 && s.params_view() == params
            && s.lane_view() == lane_id && s.retry_view() == retry_config,
{
}

/// Before the next attempt the submission waits for the backoff of the attempt
/// that failed, up to a quarter more or less: the initial delay after the first
/// one, doubled with every further one, and never more than the cap.
pub proof fn retries_wait_for_the_backoff(
    s: LaneSubmission,
    outcome: Result<Seq<WalletSignableTransaction>, WalletCallerError>,
    sample: u128,
    r: CreationStep,
)
    requires
        creation_answered(s, outcome, sample, r),
        r is RetryAfter,
        s.attempt_view() >= 1,
    ensures
        ({
            let doubled = s.retry_view().initial_delay_ms * vstd::arithmetic::power2::pow2(
                (s.attempt_view() - 1) as nat,
            );
            let cap = s.retry_view().max_delay_ms as int;
            let backoff = if doubled < cap {
                doubled
            } else {
                cap
            };
            &&& r->delay_ms <= backoff + backoff / 4
            &&& r->delay_ms >= backoff - backoff / 4
        }),
{
    let delay = s.retry_view().delay_ms(s.attempt_view());
    retry::backoff_grows_to_the_cap(s.retry_view(), 0, s.attempt_view());
    vstd::arithmetic::div_mod::lemma_mod_bound(sample as int, 2 * (delay / 4) + 1);
}

/// An error that is no exhaustion ends a submission at once and as it is, and so
/// do transactions that do not fit; an exhausted wallet ends it after the last
/// attempt, with the number of attempts.
pub proof fn final_errors_end_a_submission(
    s: LaneSubmission,
    outcome: Result<Seq<WalletSignableTransaction>, WalletCallerError>,
    sample: u128,
    r: CreationStep,
)
    requires
        creation_answered(s, outcome, sample, r),
    ensures
        !(r is Request),
        outcome matches Err(e) ==> !(r is Sign),
        outcome matches Err(e) ==> !e.is_exhaustion() ==> r == CreationStep::Fail(e),
        outcome matches Err(e) ==> e.is_exhaustion() && s.attempt_view()
            >= s.retry_view().max_attempts ==> (r matches CreationStep::Fail(f) && f.message()
            == "Wallet daemon error: "@ + ("Retry exhausted after "@ + text::decimal_text(
            s.retry_view().max_attempts as nat,
        ) + " attempts: "@ + "UTXO exhaustion"@)),
        outcome matches Ok(txs) ==> r is Sign || (r matches CreationStep::Fail(f)
            && f is LaneValidationFailed),
{
}

/// Only a failed creation of transactions is tried again: no other error counts
/// as exhaustion, whatever its message.
pub proof fn only_failed_creations_are_retried(error: WalletCallerError)
    ensures
        error.is_exhaustion() ==> error is TransactionCreationFailed,
        error matches WalletCallerError::TransactionCreationFailed(status) ==> (
        error.is_exhaustion() <==> status.means_no_funds()),
{
}

/// What the daemon said is not lost on the way to the client: the reported error
/// holds the text of the status.
pub proof fn reports_hold_the_status(err: WalletCallerError, e: AppError, status: GrpcStatus)
    requires
        reported_as(err, e),
        err == WalletCallerError::AddressGenerationFailed(status) || err
            == WalletCallerError::TransactionSigningFailed(status) || err
            == WalletCallerError::TransactionBroadcastFailed(status) || (err
            == WalletCallerError::TransactionCreationFailed(status) && !status.means_no_funds()),
    ensures
        text::is_substring(e.message(), status.text@),
        text::is_substring(err.message(), status.text@),
{
    let detail = e->WalletError_0@;
    let all = e.message();
    let n = status.text@.len() as int;
    assert(all == "Wallet error: "@ + detail);
    assert(all.subrange(all.len() - n, all.len() as int) =~= status.text@);
    assert(text::occurs_at(all, status.text@, all.len() - n));
    let own = err.message();
    assert(own.subrange(own.len() - n, own.len() as int) =~= status.text@);
    assert(text::occurs_at(own, status.text@, own.len() - n));
}

/// A submission ends with the id of the transaction that carries the payload,
/// which is the last of the batch, exactly where the daemon named ids.
pub proof fn submissions_end_with_the_last_id(
    reply: GrpcReply<Vec<String>>,
    r: Result<String, WalletCallerError>,
)
    requires
        broadcast_ended(reply, r),
    ensures
        r is Ok <==> (reply matches GrpcReply::Answer(ids) && ids@.len() > 0),
        r matches Ok(id) ==> id == reply->Answer_0@[reply->Answer_0@.len() - 1],
        reply matches GrpcReply::Failed(s) ==> r->Err_0 == WalletCallerError::TransactionBroadcastFailed(
            s,
        ),
        reply is TimedOut ==> r->Err_0 is GrpcTimeout,
{
}

/// A wallet sends to the configured address, and to the one that the daemon made
/// up where none is configured. It needs an address and a password.
pub proof fn wallets_need_an_address_and_a_password(
    wallet_config: WalletConfig,
    igra_config: IgraConfig,
    new_address: Option<Result<String, GrpcStatus>>,
    password: PasswordLookup,
    r: Result<WalletCaller, WalletCallerError>,
)
    requires
        wallet_config.to_address@.len() == 0 ==> new_address is Some,
        wallet_set_up(wallet_config, igra_config, new_address, password, r),
    ensures
        r is Ok <==> password is Found && (wallet_config.to_address@.len() > 0
            || new_address->0 is Ok),
        r matches Ok(wallet) ==> {
            &&& wallet_config.to_address@.len() > 0 ==> wallet.to_address@
                == wallet_config.to_address@
            &&& wallet_config.to_address@.len() == 0 ==> wallet.to_address@
                == new_address->0->Ok_0@
            &&& password == PasswordLookup::Found(wallet.password)
            &&& wallet.lane_id@ == igra_config.lane_id@
        },
{
}

/// The daemon is told the recipient, the amount and the payload of a submission
/// as they are, and is left free in what it spends and in the fee.
pub proof fn the_daemon_is_told_what_is_submitted<U, F>(
    params: TransactionParams,
    r: TransactionDescription<U, F>,
)
    requires
        describes(params, r),
    ensures
        r.to_address@ == params.to_address@,
        r.amount == params.amount,
        r.is_send_all == params.is_send_all,
        r.payload@ == params.payload@,
        r.from_addresses@ =~= Seq::<String>::empty(),
        r.utxos@ =~= Seq::<U>::empty(),
        r.fee_policy is None,
        r.use_existing_change_address,
{
}

/// What the daemon answers to a request to create transactions is taken as it is,
/// a failed call keeps its status, and a call without an answer is given up after
/// half a minute. Only an answer lets a submission go on to signing.
pub proof fn replies_are_taken_as_they_are<T>(reply: GrpcReply<T>)
    ensures
        creation_result(reply) is Ok <==> reply is Answer,
        reply matches GrpcReply::Answer(t) ==> creation_result(reply) == Ok::<
            T,
            WalletCallerError,
        >(t),
        reply matches GrpcReply::Failed(status) ==> (creation_result(reply) matches Err(
            WalletCallerError::TransactionCreationFailed(s),
        ) && s == status),
        reply is TimedOut ==> (creation_result(reply) matches Err(e) && e.message()
            == "Wallet gRPC call '"@ + "create_unsigned_transactions"@ + "' timed out after "@
            + text::decimal_text(30) + "s"@ && !e.is_exhaustion()),
{
}

} // verus!
