//! Processing of transaction submissions: admission, queueing, fee validation,
//! the wallet call and the answer to the client.

use crate::bytes;
use crate::clients::wallet_caller::{TransactionParams, WalletCallerError};
use crate::error::AppError;
use crate::errors::transaction::TransactionError;
use crate::outside;
use crate::services::transaction::payload;
use crate::services::transaction::request;
use crate::services::transaction::request::TransactionValidationContext;
use crate::text;
use crate::types::envelope::TxEnvelope;
use crate::types::rpc::{JsonValue, RpcRequest, RpcResponse};
use crate::types::u256::U256;
use vstd::prelude::*;
use vstd::string::*;

verus! {

/// Number of transactions that can be queued for processing.
pub const TRANSACTION_QUEUE_CAPACITY: usize = 1024;

/// A transaction that is queued for processing.
#[derive(Debug)]
pub struct TransactionRequest {
    /// The transaction as the client sent it.
    pub raw_tx: String,
    /// The decoded transaction.
    pub tx_bytes: Vec<u8>,
    /// The identifier under which the client is answered.
    pub id: JsonValue,
}

/// The text of a UUID.
pub open spec fn uuid_chars(uuid: u128) -> Seq<char> {
    outside::hyphenated(outside::padded_hex(uuid as nat, 32))
}

/// Whether `r` identifies a request: by its own identifier, or by a UUID where
/// that is `null`.
pub open spec fn identifies(id: JsonValue, uuid: u128, r: JsonValue) -> bool {
    if id is Null {
        r matches JsonValue::String(s) && s@ == uuid_chars(uuid)
    } else {
        r == id
    }
}

/// Identifies a request, given a UUID for one whose identifier is `null`.
pub fn identify(id: &JsonValue, uuid: u128) -> (r: JsonValue)
    ensures
        identifies(*id, uuid, r),
{
    if id.is_null() {
        JsonValue::String(outside::uuid_text(uuid))
    } else {
        id.clone()
    }
}

/// What is done with a submission.
#[derive(Debug)]
pub enum Admission {
    /// It is refused with this response.
    Refuse(RpcResponse),
    /// It is queued; the hash is what the client gets in the end.
    Queue { request: TransactionRequest, hash: String },
}

/// Whether `r` is what is done with a submission.
pub open spec fn admission(
    req: RpcRequest,
    uuid: u128,
    decoded: Result<TxEnvelope, Seq<char>>,
    r: Admission,
) -> bool {
    exists|verdict: (Result<(), RpcResponse>, Option<Vec<u8>>)|
        #![trigger request::request_outcome(req, None, decoded, verdict)]
        request::request_outcome(req, None, decoded, verdict) && match verdict.0 {
            Err(e) => r == Admission::Refuse(e),
            Ok(_) => {
                &&& r matches Admission::Queue { request, hash }
                &&& request.raw_tx@ == req.raw_param()
                &&& request.tx_bytes@ == request::transaction_bytes(req.raw_param())
                &&& identifies(req.id, uuid, request.id)
                &&& hash@ == request::hash_text(request::transaction_bytes(req.raw_param()))
            },
        }
}

/// Decides what is done with a submission, given a UUID for a request whose
/// identifier is `null`. Fees are not looked at yet.
pub fn admit_submission(req: &RpcRequest, uuid: u128) -> (r: Admission)
    ensures
        admission(
            *req,
            uuid,
            outside::decoded_envelope(request::transaction_bytes(req.raw_param())),
            r,
        ),
{
    let id = identify(&req.id, uuid);
    let verdict = request::validate_transaction_request(req, None);
    let ghost decoded = outside::decoded_envelope(request::transaction_bytes(req.raw_param()));
    assert(request::request_outcome(*req, None, decoded, verdict));
    match verdict {
        (Err(error), _) => Admission::Refuse(error),
        (Ok(_), Some(tx_bytes)) => {
            let hash = request::transaction_hash_text(tx_bytes.as_slice());
            Admission::Queue {
                request: TransactionRequest { raw_tx: req.first_param_text(), tx_bytes, id },
                hash,
            }
        },
        (Ok(_), None) => {
            // A request that passes validation always comes with its bytes.
            assert(false);
            Admission::Refuse(
                RpcResponse::error(
                    id,
                    -32000,
                    String::from_str("Transaction validation passed but no bytes were returned"),
                ),
            )
        },
    }
}

/// Decides what is done with a submission; a request whose identifier is `null`
/// gets a random version 4 UUID.
pub fn process_transaction(req: &RpcRequest) -> (r: Admission)
    ensures
        exists|uuid: u128|
            outside::is_v4(uuid) && #[trigger] admission(
                *req,
                uuid,
                outside::decoded_envelope(request::transaction_bytes(req.raw_param())),
                r,
            ),
{
    let uuid: u128 = outside::random_uuid();
    let r = admit_submission(req, uuid);
    assert(admission(
        *req,
        uuid,
        outside::decoded_envelope(request::transaction_bytes(req.raw_param())),
        r,
    ));
    r
}

/// How the processing of a queued transaction ended.
#[derive(Debug)]
pub enum ProcessingOutcome {
    /// The queue did not take it.
    NotQueued,
    /// It was processed, or failed for this reason.
    Processed(Result<(), String>),
    /// The worker went away without an answer.
    WorkerGone,
    /// There was no answer in time.
    TimedOut,
}

/// Whether `r` is the answer to a submission.
pub open spec fn submission_answer(
    id: JsonValue,
    hash: Seq<char>,
    outcome: ProcessingOutcome,
    timeout_seconds: u64,
    r: RpcResponse,
) -> bool {
    match outcome {
        ProcessingOutcome::NotQueued => r.is_error(
            id,
            -32005,
            "Transaction queue is full (capacity "@ + text::decimal_text(
                TRANSACTION_QUEUE_CAPACITY as nat,
            ) + ")"@,
        ),
        ProcessingOutcome::Processed(Ok(_)) => r.is_text_result(id, hash),
        ProcessingOutcome::Processed(Err(e)) => r.is_error(
            id,
            -32603,
            "Error processing transaction: "@ + e@,
        ),
        ProcessingOutcome::WorkerGone => r.is_error(
            id,
            -32603,
            "Internal error: "@ + "Transaction processor channel closed unexpectedly"@,
        ),
        ProcessingOutcome::TimedOut => r.is_error(
            id,
            -32000,
            "Transaction processing timed out after "@ + text::decimal_text(timeout_seconds as nat)
                + " seconds"@,
        ),
    }
}

/// Answers a submission once it is known how its processing ended.
pub fn answer_submission(
    id: JsonValue,
    hash: String,
    outcome: ProcessingOutcome,
    timeout_seconds: u64,
) -> (r: RpcResponse)
    ensures
        submission_answer(id, hash@, outcome, timeout_seconds, r),
{
    match outcome {
        ProcessingOutcome::NotQueued => TransactionError::queue_full(
            TRANSACTION_QUEUE_CAPACITY,
        ).to_json_rpc_error(id),
        ProcessingOutcome::Processed(Ok(_)) => RpcResponse::text_result(id, hash),
        ProcessingOutcome::Processed(Err(e)) => RpcResponse::error(
            id,
            -32603,
            text::concat2("Error processing transaction: ", e.as_str()),
        ),
        ProcessingOutcome::WorkerGone => TransactionError::InternalError(
            String::from_str("Transaction processor channel closed unexpectedly"),
        ).to_json_rpc_error(id),
        ProcessingOutcome::TimedOut => TransactionError::processing_timeout(
            timeout_seconds,
        ).to_json_rpc_error(id),
    }
}

/// What a worker does with a transaction once the base fee is known.
#[derive(Debug)]
pub enum WorkerStep {
    /// Report this failure, without counting it.
    Reject(String),
    /// Report this failure and count it.
    Fail(String),
    /// Hand the transaction to the wallet.
    CallWallet,
}

/// Whether `r` is what a worker does with a transaction.
pub open spec fn worker_step(
    tx_bytes: Seq<u8>,
    decoded: Result<TxEnvelope, Seq<char>>,
    base_fee: Result<U256, AppError>,
    r: WorkerStep,
) -> bool {
    match base_fee {
        Err(e) => r matches WorkerStep::Reject(m) && m@ == "Failed to fetch base fee: "@
            + e.message(),
        Ok(fee) => exists|verdict: Result<(), TransactionError>| #[trigger]
            request::transaction_outcome(tx_bytes, decoded, Some(fee@), verdict) && match verdict {
                Ok(_) => r is CallWallet,
                Err(e) => r matches WorkerStep::Fail(m) && m@ == e.message(),
            },
    }
}

/// Decides what a worker does with a transaction once the base fee is known:
/// without a base fee nothing is submitted, and a fee below it is refused.
pub fn fee_known(
    tx_bytes: &Vec<u8>,
    id: &JsonValue,
    base_fee: Result<U256, AppError>,
) -> (r: WorkerStep)
    ensures
        worker_step(tx_bytes@, outside::decoded_envelope(tx_bytes@), base_fee, r),
{
    let fee = match base_fee {
        Err(e) => return WorkerStep::Reject(
            text::concat2("Failed to fetch base fee: ", e.to_string().as_str()),
        ),
        Ok(fee) => fee,
    };
    let context = TransactionValidationContext::new(
        id.to_string(),
        bytes::copied(tx_bytes.as_slice()),
        Some(fee),
    );
    let verdict = request::validate_transaction_fees(&context);
    assert(request::transaction_outcome(
        tx_bytes@,
        outside::decoded_envelope(tx_bytes@),
        Some(fee@),
        verdict,
    ));
    match verdict {
        Ok(_) => WorkerStep::CallWallet,
        Err(e) => WorkerStep::Fail(e.to_string()),
    }
}

/// How many transactions a worker has processed.
#[derive(Debug, Clone, Copy, PartialEq, Eq, Structural)]
pub struct WorkerCounts {
    pub processed: u16,
    pub errors: u16,
}

impl WorkerCounts {
    /// The counts at the start.
    pub fn new() -> (r: Self)
        ensures
            r.processed == 0,
            r.errors == 0,
    {
        WorkerCounts { processed: 0, errors: 0 }
    }

    /// Counts a transaction; a count that is full stays as it is.
    pub fn count(self, success: bool) -> (r: Self)
        ensures
            r.processed == if success && self.processed < u16::MAX {
                self.processed + 1
            } else {
                self.processed as int
            },
            r.errors == if !success && self.errors < u16::MAX {
                self.errors + 1
            } else {
                self.errors as int
            },
    {
        if success {
            WorkerCounts { processed: self.processed.saturating_add(1), errors: self.errors }
        } else {
            WorkerCounts { processed: self.processed, errors: self.errors.saturating_add(1) }
        }
    }
}

/// The base-layer payload for a transaction, from its bytes and their compressed
/// form, or why there is none.
pub open spec fn framed(tx_bytes: Seq<u8>, compressed: Option<Seq<u8>>) -> Result<
    Seq<u8>,
    Seq<char>,
> {
    let (tx_type_id, data) = payload::chosen_data(tx_bytes, compressed);
    if data.len() == 0 {
        Err("Failed to serialize payload: "@ + ("Payload serialization error: "@
            + "l2_data cannot be empty"@))
    } else {
        Ok(
            seq![(payload::VERSION * 16 + tx_type_id.spec_code()) as u8] + data + seq![
                0u8,
                0u8,
                0u8,
                0u8,
            ],
        )
    }
}

/// Frames a transaction for the base layer, given its compressed form.
pub fn frame(tx_bytes: &[u8], compressed: Option<Vec<u8>>) -> (r: Result<Vec<u8>, String>)
    ensures
        match framed(tx_bytes@, payload::optional_bytes(compressed)) {
            Ok(wire) => r matches Ok(b) && b@ == wire,
            Err(reason) => r matches Err(m) && m@ == reason,
        },
{
    let igra_payload = payload::build_payload(tx_bytes, compressed);
    match payload::serialize_payload(&igra_payload) {
        Ok(b) => Ok(b),
        Err(e) => Err(text::concat2("Failed to serialize payload: ", e.to_string().as_str())),
    }
}

/// Prepares the wallet call for a transaction: all funds go to the wallet's
/// address, with the framed transaction as payload, under the hash of the
/// uncompressed bytes. This fails for an empty transaction and no other.
pub fn process_wallet_call(tx_bytes: &[u8], to_address: &str) -> (r: Result<
    TransactionParams,
    String,
>)
    ensures
        match framed(
            tx_bytes@,
            outside::zlib_stream(tx_bytes@, payload::ZLIB_COMPRESSION_LEVEL),
        ) {
            Ok(wire) => {
                &&& r matches Ok(params)
                &&& params.to_address@ == to_address@
                &&& params.amount == 0
                &&& params.is_send_all
                &&& params.payload@ == wire
                &&& params.l2_transaction_hash matches Some(hash)
                &&& hash@ == request::hash_text(tx_bytes@)
            },
            Err(reason) => r matches Err(m) && m@ == reason,
        },
        r is Ok <==> tx_bytes@.len() > 0,
{
    let compressed = payload::compress_zlib(tx_bytes);
    match frame(tx_bytes, compressed) {
        Ok(wire) => Ok(
            TransactionParams::send_all(
                String::from_str(to_address),
                wire,
                Some(request::transaction_hash_text(tx_bytes)),
            ),
        ),
        Err(m) => Err(m),
    }
}

/// Turns the end of a wallet call into the report of the worker: the response
/// with the transaction hash, or the reason of the failure.
pub fn wallet_call_finished(
    outcome: Result<String, WalletCallerError>,
    id: JsonValue,
    hash: String,
) -> (r: Result<RpcResponse, String>)
    ensures
        match outcome {
            Ok(_) => r matches Ok(response) && response.is_text_result(id, hash@),
            Err(e) => r matches Err(m) && m@ == "KASPA Wallet call failed: "@ + e.message(),
        },
{
    match outcome {
        Ok(_) => Ok(RpcResponse::text_result(id, hash)),
        Err(e) => Err(text::concat2("KASPA Wallet call failed: ", e.to_string().as_str())),
    }
}

/// A client gets the transaction hash exactly where its transaction was
/// processed; it is never told a hash after a failure or a timeout.
pub proof fn hash_is_returned_only_on_success(
    id: JsonValue,
    hash: Seq<char>,
    outcome: ProcessingOutcome,
    timeout_seconds: u64,
    r: RpcResponse,
)
    requires
        submission_answer(id, hash, outcome, timeout_seconds, r),
    ensures
        r.outcome is Result <==> (outcome matches ProcessingOutcome::Processed(Ok(_))),
        r.outcome is Result ==> r.is_text_result(id, hash),
        r.id == id,
{
}

/// Every submission is either refused or queued with the bytes that it spells
/// and with their hash, and it is queued exactly where it is a well-formed
/// transaction of a supported type. A refusal carries the identifier of the
/// request.
pub proof fn well_formed_submissions_are_queued(
    req: RpcRequest,
    uuid: u128,
    decoded: Result<TxEnvelope, Seq<char>>,
    r: Admission,
)
    requires
        admission(req, uuid, decoded, r),
    ensures
        r is Queue <==> request::is_hex_transaction(req.raw_param())
            && crate::services::transaction::fees::parsed_transaction(
            request::transaction_bytes(req.raw_param()),
            decoded,
        ) is Ok,
        r matches Admission::Queue { request, hash } ==> hash@ == request::hash_text(
            request.tx_bytes@,
        ),
        r matches Admission::Refuse(e) ==> e.id == req.id,
{
    let verdict = choose|verdict: (Result<(), RpcResponse>, Option<Vec<u8>>)|
        #![trigger request::request_outcome(req, None, decoded, verdict)]
        request::request_outcome(req, None, decoded, verdict) && match verdict.0 {
            Err(e) => r == Admission::Refuse(e),
            Ok(_) => {
                &&& r matches Admission::Queue { request, hash }
                &&& request.raw_tx@ == req.raw_param()
                &&& request.tx_bytes@ == request::transaction_bytes(req.raw_param())
                &&& identifies(req.id, uuid, request.id)
                &&& hash@ == request::hash_text(request::transaction_bytes(req.raw_param()))
            },
        };
    request::accepted_requests_are_valid(req, None, decoded, verdict);
    request::refusals_echo_the_request_id(req, None, decoded, verdict);
}

/// The wallet is called exactly for transactions that parse and whose fees reach
/// the effective base fee.
pub proof fn wallet_sees_paying_transactions_only(
    tx_bytes: Seq<u8>,
    decoded: Result<TxEnvelope, Seq<char>>,
    base_fee: Result<U256, AppError>,
    r: WorkerStep,
)
    requires
        worker_step(tx_bytes, decoded, base_fee, r),
    ensures
        r is CallWallet <==> {
            &&& base_fee matches Ok(fee)
            &&& crate::services::transaction::fees::parsed_transaction(
                tx_bytes,
                decoded,
            ) matches Ok((tx, tx_type))
            &&& crate::services::transaction::fees::offers_fee(tx, tx_type, fee@)
        },
{
}

/// The framed transaction can be taken apart again: behind the first byte and
/// before the last four stands the data, and the first byte tells whether it is
/// the transaction itself or its compressed form.
pub proof fn frames_can_be_taken_apart(tx_bytes: Seq<u8>, compressed: Option<Seq<u8>>)
    requires
        framed(tx_bytes, compressed) is Ok,
    ensures
        ({
            let wire = framed(tx_bytes, compressed)->Ok_0;
            let data = wire.subrange(1, wire.len() - 4);
            &&& wire.len() <= tx_bytes.len() + 5
            &&& wire[0] == 0x94 || wire[0] == 0x95
            &&& wire[0] == 0x94 ==> data == tx_bytes
            &&& wire[0] == 0x95 ==> compressed == Some(data)
        }),
{
    let wire = framed(tx_bytes, compressed)->Ok_0;
    let (tx_type_id, data) = payload::chosen_data(tx_bytes, compressed);
    assert(wire.subrange(1, wire.len() - 4) =~= data);
}

/// What is queued is what the client sent: its text, the bytes that this spells
/// and their hash, under the client's own identifier where it gave one.
pub proof fn queued_submissions_are_the_clients(
    req: RpcRequest,
    uuid: u128,
    decoded: Result<TxEnvelope, Seq<char>>,
    r: Admission,
)
    requires
        admission(req, uuid, decoded, r),
        r is Queue,
    ensures
        r->request.raw_tx@ == req.raw_param(),
        r->request.tx_bytes@ == request::transaction_bytes(req.raw_param()),
        r->hash@ == request::hash_text(r->request.tx_bytes@),
        !(req.id is Null) ==> r->request.id == req.id,
        req.id is Null ==> r->request.id is String,
{
}

/// The frame of a transaction is told apart by its first byte, ends with four
/// zero bytes, and holds the compressed form exactly where that is shorter. Every
/// transaction can be framed unless it or its compressed form is empty.
pub proof fn frames_hold_the_shorter_form(tx_bytes: Seq<u8>, compressed: Option<Seq<u8>>)
    ensures
        framed(tx_bytes, compressed) is Ok <==> tx_bytes.len() > 0 && (compressed matches Some(
            stream,
        ) ==> stream.len() > 0),
        framed(tx_bytes, compressed) matches Ok(wire) ==> {
            let n = wire.len();
            &&& n >= 6
            &&& wire[n - 1] == 0 && wire[n - 2] == 0 && wire[n - 3] == 0 && wire[n - 4] == 0
            &&& wire[0] == 0x95 <==> (compressed matches Some(stream) && stream.len()
                < tx_bytes.len())
            &&& wire[0] == 0x95 ==> wire.subrange(1, n - 4) == compressed->0
            &&& wire[0] != 0x95 ==> wire[0] == 0x94 && wire.subrange(1, n - 4) == tx_bytes
        },
{
    if framed(tx_bytes, compressed) is Ok {
        let wire = framed(tx_bytes, compressed)->Ok_0;
        let (tx_type_id, data) = payload::chosen_data(tx_bytes, compressed);
        assert(wire.subrange(1, wire.len() - 4) =~= data);
    }
}

/// A client is told how its submission ended under its own identifier: the hash,
/// the reason of a failure, or the seconds after which nothing was heard.
pub proof fn submissions_are_answered_with_how_they_ended(
    id: JsonValue,
    hash: Seq<char>,
    outcome: ProcessingOutcome,
    timeout_seconds: u64,
    r: RpcResponse,
)
    requires
        submission_answer(id, hash, outcome, timeout_seconds, r),
    ensures
        r.id == id,
        r.jsonrpc@ == "2.0"@,
        outcome matches ProcessingOutcome::Processed(Ok(_)) ==> (r.outcome matches
            crate::types::rpc::RpcOutcome::Result(JsonValue::String(s)) && s@ == hash),
        outcome matches ProcessingOutcome::Processed(Err(reason)) ==> r.outcome is Error
            && r.outcome->code == -32603 && r.outcome->message@ == "Error processing transaction: "@
            + reason@,
        outcome is TimedOut ==> r.outcome is Error && r.outcome->code == -32000
            && r.outcome->message@ == "Transaction processing timed out after "@
            + text::decimal_text(timeout_seconds as nat) + " seconds"@,
        outcome is NotQueued ==> r.outcome is Error && r.outcome->code == -32005,
        outcome is WorkerGone ==> r.outcome is Error && r.outcome->code == -32603,
{
}

/// A worker that does not call the wallet gives the reason: that there is no base
/// fee, which is no failure of the transaction, or why the transaction is refused.
pub proof fn workers_give_the_reason(
    tx_bytes: Seq<u8>,
    decoded: Result<TxEnvelope, Seq<char>>,
    base_fee: Result<U256, AppError>,
    r: WorkerStep,
)
    requires
        worker_step(tx_bytes, decoded, base_fee, r),
    ensures
        r is Reject <==> base_fee is Err,
        base_fee matches Err(e) ==> r->Reject_0@ == "Failed to fetch base fee: "@ + e.message(),
        base_fee is Ok ==> (match crate::services::transaction::fees::parsed_transaction(
            tx_bytes,
            decoded,
        ) {
            Err(reason) => r is Fail && r->Fail_0@ == "Invalid transaction format: "@ + (
            "Internal error: "@ + reason),
            Ok(_) => true,
        }),
{
}

/// As many digits are written as are asked for.
proof fn padded_hex_has_its_length(n: nat, digits: nat)
    ensures
        outside::padded_hex(n, digits).len() == digits,
    decreases digits,
{
    if digits > 0 {
        padded_hex_has_its_length(n / 16, (digits - 1) as nat);
    }
}

/// Numbers that the digits can hold are told apart by them.
proof fn padded_hex_is_unambiguous(a: nat, b: nat, digits: nat)
    requires
        a < vstd::arithmetic::power::pow(16, digits),
        b < vstd::arithmetic::power::pow(16, digits),
        outside::padded_hex(a, digits) == outside::padded_hex(b, digits),
    ensures
        a == b,
    decreases digits,
{
    reveal_with_fuel(vstd::arithmetic::power::pow, 2);
    if digits > 0 {
        let p = vstd::arithmetic::power::pow(16, (digits - 1) as nat);
        assert(vstd::arithmetic::power::pow(16, digits) == 16 * p);
        assert(outside::padded_hex(a, digits).drop_last() =~= outside::padded_hex(a / 16, (digits - 1) as nat));
        assert(outside::padded_hex(b, digits).drop_last() =~= outside::padded_hex(b / 16, (digits - 1) as nat));
        assert(a / 16 < p && b / 16 < p);
        padded_hex_is_unambiguous(a / 16, b / 16, (digits - 1) as nat);
        assert(outside::padded_hex(a, digits) == outside::padded_hex(
            a / 16,
            (digits - 1) as nat,
        ).push(text::digit_char((a % 16) as int)));
        assert(outside::padded_hex(b, digits) == outside::padded_hex(
            b / 16,
            (digits - 1) as nat,
        ).push(text::digit_char((b % 16) as int)));
        let head_a = outside::padded_hex(a / 16, (digits - 1) as nat);
        let head_b = outside::padded_hex(b / 16, (digits - 1) as nat);
        assert(outside::padded_hex(a, digits)[head_a.len() as int] == text::digit_char(
            (a % 16) as int,
        ));
        assert(outside::padded_hex(b, digits)[head_b.len() as int] == text::digit_char(
            (b % 16) as int,
        ));
        padded_hex_has_its_length(a / 16, (digits - 1) as nat);
        padded_hex_has_its_length(b / 16, (digits - 1) as nat);
        assert(text::digit_char((a % 16) as int) == text::digit_char((b % 16) as int));
        assert(a % 16 == b % 16);
    }
}

/// An identifier that is made up has the form of a UUID, and two UUIDs make two
/// identifiers: requests without one of their own are not mixed up.
pub proof fn made_up_identifiers_differ(a: u128, b: u128)
    ensures
        uuid_chars(a).len() == 36,
        uuid_chars(a)[8] == '-' && uuid_chars(a)[13] == '-' && uuid_chars(a)[18] == '-'
            && uuid_chars(a)[23] == '-',
        uuid_chars(a) == uuid_chars(b) ==> a == b,
{
    reveal_strlit("-");
    padded_hex_has_its_length(a as nat, 32);
    padded_hex_has_its_length(b as nat, 32);
    let x = outside::padded_hex(a as nat, 32);
    let y = outside::padded_hex(b as nat, 32);
    if uuid_chars(a) == uuid_chars(b) {
        let s = uuid_chars(a);
        assert(x =~= s.subrange(0, 8) + s.subrange(9, 13) + s.subrange(14, 18) + s.subrange(19, 23)
            + s.subrange(24, 36));
        assert(y =~= s.subrange(0, 8) + s.subrange(9, 13) + s.subrange(14, 18) + s.subrange(19, 23)
            + s.subrange(24, 36));
        assert(vstd::arithmetic::power::pow(16, 32) == 0x1_0000_0000_0000_0000_0000_0000_0000_0000)
            by {
            reveal_with_fuel(vstd::arithmetic::power::pow, 33);
        }
        padded_hex_is_unambiguous(a as nat, b as nat, 32);
    }
}

} // verus!
