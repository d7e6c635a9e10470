//! The life of a transaction in a worker.
//!
//! A worker takes one transaction after the other from the queue. For each it
//! asks for the base fee, then for the wallet call, and reports how it ended.
//! The application performs each action and hands back the event.

use crate::clients::wallet_caller::{TransactionParams, WalletCallerError};
use crate::error::AppError;
use crate::errors::transaction::TransactionError;
use crate::outside;
use crate::services::transaction::fees;
use crate::services::transaction::payload;
use crate::services::transaction::processor;
use crate::services::transaction::processor::{TransactionRequest, WorkerCounts, WorkerStep};
use crate::services::transaction::request;
use crate::types::envelope::TxEnvelope;
use crate::types::u256::U256;
use vstd::prelude::*;

verus! {

/// What a worker waits for.
#[derive(Debug)]
pub enum WorkerPhase {
    /// The next transaction.
    Idle,
    /// The base fee for this transaction.
    Pricing(TransactionRequest),
    /// The end of the wallet call for this transaction.
    Paying(TransactionRequest),
}

/// What happened to a worker.
#[derive(Debug)]
pub enum WorkerEvent {
    /// It got a transaction from the queue.
    Received(TransactionRequest),
    /// It got the effective base fee, or could not.
    FeeKnown(Result<U256, AppError>),
    /// The wallet call ended.
    WalletDone(Result<String, WalletCallerError>),
}

/// What is to be done for a worker.
#[derive(Debug)]
pub enum WorkerAction {
    /// Get the effective base fee.
    FetchFee,
    /// Submit through the wallet.
    CallWallet(TransactionParams),
    /// Report how the transaction ended, then take the next one.
    Report(Result<(), String>),
}

/// A worker: the address of its wallet, its counts and what it waits for.
#[derive(Debug)]
pub struct Worker {
    pub to_address: String,
    pub counts: WorkerCounts,
    pub phase: WorkerPhase,
}

/// Whether an event is what a worker waits for.
pub open spec fn expects(phase: WorkerPhase, event: WorkerEvent) -> bool {
    match event {
        WorkerEvent::Received(_) => phase is Idle,
        WorkerEvent::FeeKnown(_) => phase is Pricing,
        WorkerEvent::WalletDone(_) => phase is Paying,
    }
}

/// Whether the counts went on like this over a transaction that ended.
pub open spec fn counted(before: WorkerCounts, success: bool, after: WorkerCounts) -> bool {
    &&& after.processed == if success && before.processed < u16::MAX {
        before.processed + 1
    } else {
        before.processed as int
    }
    &&& after.errors == if !success && before.errors < u16::MAX {
        before.errors + 1
    } else {
        before.errors as int
    }
}

/// Whether an action reports the failure with the given reason.
pub open spec fn reports_failure(action: WorkerAction, reason: Seq<char>) -> bool {
    action matches WorkerAction::Report(Err(m)) && m@ == reason
}

/// Whether `params` submit a transaction in its framed form.
pub open spec fn submits(
    params: TransactionParams,
    to_address: Seq<char>,
    tx_bytes: Seq<u8>,
    wire: Seq<u8>,
) -> bool {
    &&& params.to_address@ == to_address
    &&& params.amount == 0
    &&& params.is_send_all
    &&& params.payload@ == wire
    &&& params.l2_transaction_hash matches Some(hash)
    &&& hash@ == request::hash_text(tx_bytes)
}

/// What follows a known base fee: a transaction that does not pay is reported,
/// one that pays is handed to the wallet. `decoded` and `compressed` are what
/// decoding and compression make of the bytes.
pub open spec fn after_fee(
    worker: Worker,
    req: TransactionRequest,
    base_fee: Result<U256, AppError>,
    decoded: Result<TxEnvelope, Seq<char>>,
    compressed: Option<Seq<u8>>,
    r: (Worker, WorkerAction),
) -> bool {
    match base_fee {
        Err(e) => {
            &&& r.0.phase is Idle
            &&& r.0.counts == worker.counts
            &&& reports_failure(r.1, "Failed to fetch base fee: "@ + e.message())
        },
        Ok(fee) => exists|verdict: Result<(), TransactionError>| #[trigger]
            request::transaction_outcome(req.tx_bytes@, decoded, Some(fee@), verdict)
                && match verdict {
                Err(e) => {
                    &&& r.0.phase is Idle
                    &&& counted(worker.counts, false, r.0.counts)
                    &&& reports_failure(r.1, e.message())
                },
                Ok(_) => match processor::framed(req.tx_bytes@, compressed) {
                    Err(reason) => {
                        &&& r.0.phase is Idle
                        &&& counted(worker.counts, false, r.0.counts)
                        &&& reports_failure(r.1, reason)
                    },
                    Ok(wire) => {
                        &&& r.0.phase == WorkerPhase::Paying(req)
                        &&& r.0.counts == worker.counts
                        &&& r.1 matches WorkerAction::CallWallet(params)
                        &&& submits(params, worker.to_address@, req.tx_bytes@, wire)
                    },
                },
            },
    }
}

/// Whether a worker goes on like this after an event. `decoded` and
/// `compressed` are what decoding and compression make of the bytes of the
/// transaction at hand.
pub open spec fn transition(
    worker: Worker,
    event: WorkerEvent,
    decoded: Result<TxEnvelope, Seq<char>>,
    compressed: Option<Seq<u8>>,
    r: (Worker, WorkerAction),
) -> bool {
    &&& r.0.to_address == worker.to_address
    &&& match event {
        WorkerEvent::Received(req) => {
            &&& r.0.phase == WorkerPhase::Pricing(req)
            &&& r.0.counts == worker.counts
            &&& r.1 is FetchFee
        },
        WorkerEvent::FeeKnown(base_fee) => after_fee(
            worker,
            worker.phase->Pricing_0,
            base_fee,
            decoded,
            compressed,
            r,
        ),
        WorkerEvent::WalletDone(outcome) => {
            &&& r.0.phase is Idle
            &&& counted(worker.counts, outcome is Ok, r.0.counts)
            &&& match outcome {
                Ok(_) => r.1 matches WorkerAction::Report(Ok(_)),
                Err(e) => reports_failure(r.1, "KASPA Wallet call failed: "@ + e.message()),
            }
        },
    }
}

/// The bytes of the transaction at hand.
pub open spec fn bytes_at_hand(worker: Worker) -> Seq<u8> {
    match worker.phase {
        WorkerPhase::Idle => Seq::empty(),
        WorkerPhase::Pricing(req) => req.tx_bytes@,
        WorkerPhase::Paying(req) => req.tx_bytes@,
    }
}

impl Worker {
    /// A worker for the wallet with the given address.
    pub fn new(to_address: String) -> (r: Self)
        ensures
            r.to_address == to_address,
            r.counts.processed == 0,
            r.counts.errors == 0,
            r.phase is Idle,
    {
        Worker { to_address, counts: WorkerCounts::new(), phase: WorkerPhase::Idle }
    }

    /// Decides how the worker goes on after an event that it waits for. The
    /// wallet is called for every transaction that parses and pays the base fee.
    pub fn step(self, event: WorkerEvent) -> (r: (Self, WorkerAction))
        requires
            expects(self.phase, event),
        ensures
            transition(
                self,
                event,
                outside::decoded_envelope(bytes_at_hand(self)),
                outside::zlib_stream(bytes_at_hand(self), payload::ZLIB_COMPRESSION_LEVEL),
                r,
            ),
            r.1 is CallWallet <==> {
                &&& event matches WorkerEvent::FeeKnown(Ok(fee))
                &&& fees::parsed_transaction(
                    bytes_at_hand(self),
                    outside::decoded_envelope(bytes_at_hand(self)),
                ) matches Ok((tx, tx_type))
                &&& fees::offers_fee(tx, tx_type, fee@)
            },
    {
        let to_address = self.to_address;
        let counts = self.counts;
        match event {
            WorkerEvent::Received(req) => (
                Worker { to_address, counts, phase: WorkerPhase::Pricing(req) },
                WorkerAction::FetchFee,
            ),
            WorkerEvent::FeeKnown(base_fee) => match self.phase {
                WorkerPhase::Pricing(req) => Self::priced(to_address, counts, req, base_fee),
                _ => {
                    assert(false);
                    (
                        Worker { to_address, counts, phase: WorkerPhase::Idle },
                        WorkerAction::FetchFee,
                    )
                },
            },
            WorkerEvent::WalletDone(outcome) => match self.phase {
                WorkerPhase::Paying(req) => {
                    let hash = request::transaction_hash_text(req.tx_bytes.as_slice());
                    match processor::wallet_call_finished(outcome, req.id, hash) {
                        Ok(_) => (
                            Worker {
                                to_address,
                                counts: counts.count(true),
                                phase: WorkerPhase::Idle,
                            },
                            WorkerAction::Report(Ok(())),
                        ),
                        Err(reason) => (
                            Worker {
                                to_address,
                                counts: counts.count(false),
                                phase: WorkerPhase::Idle,
                            },
                            WorkerAction::Report(Err(reason)),
                        ),
                    }
                },
                _ => {
                    assert(false);
                    (
                        Worker { to_address, counts, phase: WorkerPhase::Idle },
                        WorkerAction::FetchFee,
                    )
                },
            },
        }
    }

    /// Decides how the worker goes on once the base fee is known.
    fn priced(
        to_address: String,
        counts: WorkerCounts,
        req: TransactionRequest,
        base_fee: Result<U256, AppError>,
    ) -> (r: (Self, WorkerAction))
        ensures
            r.0.to_address == to_address,
            after_fee(
                (Worker { to_address, counts, phase: WorkerPhase::Pricing(req) }),
                req,
                base_fee,
                outside::decoded_envelope(req.tx_bytes@),
                outside::zlib_stream(req.tx_bytes@, payload::ZLIB_COMPRESSION_LEVEL),
                r,
            ),
            r.1 is CallWallet <==> {
                &&& base_fee matches Ok(fee)
                &&& fees::parsed_transaction(
                    req.tx_bytes@,
                    outside::decoded_envelope(req.tx_bytes@),
                ) matches Ok((tx, tx_type))
                &&& fees::offers_fee(tx, tx_type, fee@)
            },
    {
        match processor::fee_known(&req.tx_bytes, &req.id, base_fee) {
            WorkerStep::Reject(reason) => (
                Worker { to_address, counts, phase: WorkerPhase::Idle },
                WorkerAction::Report(Err(reason)),
            ),
            WorkerStep::Fail(reason) => (
                Worker { to_address, counts: counts.count(false), phase: WorkerPhase::Idle },
                WorkerAction::Report(Err(reason)),
            ),
            WorkerStep::CallWallet => {
                match processor::process_wallet_call(req.tx_bytes.as_slice(), to_address.as_str()) {
                    Ok(params) => (
                        Worker { to_address, counts, phase: WorkerPhase::Paying(req) },
                        WorkerAction::CallWallet(params),
                    ),
                    Err(reason) => (
                        Worker { to_address, counts: counts.count(false), phase: WorkerPhase::Idle },
                        WorkerAction::Report(Err(reason)),
                    ),
                }
            },
        }
    }
}

/// A success is reported exactly where a wallet call succeeded, and a wallet
/// call is made exactly for a transaction that parses, pays the base fee and can
/// be framed: so a client is told a hash only after all checks passed and the
/// transaction was submitted.
pub proof fn success_needs_every_check(
    worker: Worker,
    event: WorkerEvent,
    decoded: Result<TxEnvelope, Seq<char>>,
    compressed: Option<Seq<u8>>,
    r: (Worker, WorkerAction),
)
    requires
        expects(worker.phase, event),
        transition(worker, event, decoded, compressed, r),
    ensures
        (r.1 matches WorkerAction::Report(Ok(_))) <==> (event matches WorkerEvent::WalletDone(
            Ok(_),
        )),
        r.1 is CallWallet <==> {
            &&& event matches WorkerEvent::FeeKnown(Ok(fee))
            &&& fees::parsed_transaction(bytes_at_hand(worker), decoded) matches Ok((tx, tx_type))
            &&& fees::offers_fee(tx, tx_type, fee@)
            &&& processor::framed(bytes_at_hand(worker), compressed) is Ok
        },
{
}

/// Every transaction is worked off: after each event the worker waits for the
/// outcome of its action, and after a report it waits for the next transaction.
pub proof fn workers_never_stall(
    worker: Worker,
    event: WorkerEvent,
    decoded: Result<TxEnvelope, Seq<char>>,
    compressed: Option<Seq<u8>>,
    r: (Worker, WorkerAction),
)
    requires
        expects(worker.phase, event),
        transition(worker, event, decoded, compressed, r),
    ensures
        match r.1 {
            WorkerAction::FetchFee => r.0.phase is Pricing,
            WorkerAction::CallWallet(_) => r.0.phase is Paying,
            WorkerAction::Report(_) => r.0.phase is Idle,
        },
        r.1 is CallWallet ==> bytes_at_hand(r.0) == bytes_at_hand(worker),
{
}

/// A transaction whose base fee cannot be had is reported but not counted; every
/// other report counts one transaction, unless a count is full.
pub proof fn reports_are_counted_once(
    worker: Worker,
    event: WorkerEvent,
    decoded: Result<TxEnvelope, Seq<char>>,
    compressed: Option<Seq<u8>>,
    r: (Worker, WorkerAction),
)
    requires
        expects(worker.phase, event),
        transition(worker, event, decoded, compressed, r),
        worker.counts.processed < u16::MAX,
        worker.counts.errors < u16::MAX,
    ensures
        r.0.counts.processed + r.0.counts.errors == worker.counts.processed + worker.counts.errors
            + if r.1 is Report && !(event matches WorkerEvent::FeeKnown(Err(_))) {
            1int
        } else {
            0int
        },
{
}

/// The wallet is asked to send all its funds to its own address, with the frame
/// of the transaction as payload: the transaction itself or its compressed form,
/// as the first byte says. The call goes by the hash of the transaction.
pub proof fn the_wallet_gets_the_transaction(
    worker: Worker,
    event: WorkerEvent,
    decoded: Result<TxEnvelope, Seq<char>>,
    compressed: Option<Seq<u8>>,
    r: (Worker, WorkerAction),
)
    requires
        expects(worker.phase, event),
        transition(worker, event, decoded, compressed, r),
    ensures
        r.1 matches WorkerAction::CallWallet(params) ==> {
            let data = params.payload@.subrange(1, params.payload@.len() - 4);
            &&& params.to_address@ == worker.to_address@
            &&& params.is_send_all
            &&& params.amount == 0
            &&& params.payload@[0] == 0x94 || params.payload@[0] == 0x95
            &&& params.payload@[0] == 0x94 ==> data == bytes_at_hand(worker)
            &&& params.payload@[0] == 0x95 ==> compressed == Some(data)
            &&& params.l2_transaction_hash matches Some(hash)
            &&& hash@ == request::hash_text(bytes_at_hand(worker))
        },
        r.0.to_address == worker.to_address,
{
    processor::frames_hold_the_shorter_form(bytes_at_hand(worker), compressed);
}

/// A transaction from the queue is first priced, and it stays at hand until its
/// end is reported.
pub proof fn transactions_stay_at_hand(
    worker: Worker,
    event: WorkerEvent,
    decoded: Result<TxEnvelope, Seq<char>>,
    compressed: Option<Seq<u8>>,
    r: (Worker, WorkerAction),
)
    requires
        expects(worker.phase, event),
        transition(worker, event, decoded, compressed, r),
    ensures
        event matches WorkerEvent::Received(req) ==> r.1 is FetchFee && r.0.phase
            == WorkerPhase::Pricing(req) && r.0.counts == worker.counts,
        r.1 is CallWallet ==> worker.phase is Pricing && r.0.phase == WorkerPhase::Paying(
            worker.phase->Pricing_0,
        ),
        event is WalletDone ==> r.1 is Report,
{
}

/// A failed wallet call is reported with the wallet's own message, and a missing
/// base fee with the message of the failed fetch.
pub proof fn failures_are_reported_with_their_reason(
    worker: Worker,
    event: WorkerEvent,
    decoded: Result<TxEnvelope, Seq<char>>,
    compressed: Option<Seq<u8>>,
    r: (Worker, WorkerAction),
)
    requires
        expects(worker.phase, event),
        transition(worker, event, decoded, compressed, r),
    ensures
        event matches WorkerEvent::WalletDone(Err(e)) ==> (r.1 matches WorkerAction::Report(Err(m))
            && m@ == "KASPA Wallet call failed: "@ + e.message()),
        event matches WorkerEvent::FeeKnown(Err(e)) ==> (r.1 matches WorkerAction::Report(Err(m))
            && m@ == "Failed to fetch base fee: "@ + e.message()),
{
}

/// A submitted transaction counts as processed and nothing else does; a refused
/// or failed one counts as an error. No count goes back.
pub proof fn successes_and_failures_are_counted_apart(
    worker: Worker,
    event: WorkerEvent,
    decoded: Result<TxEnvelope, Seq<char>>,
    compressed: Option<Seq<u8>>,
    r: (Worker, WorkerAction),
)
    requires
        expects(worker.phase, event),
        transition(worker, event, decoded, compressed, r),
        worker.counts.processed < u16::MAX,
        worker.counts.errors < u16::MAX,
    ensures
        r.0.counts.processed == worker.counts.processed + if event matches WorkerEvent::WalletDone(
            Ok(_),
        ) {
            1int
        } else {
            0int
        },
        event matches WorkerEvent::WalletDone(Err(_)) ==> r.0.counts.errors == worker.counts.errors
            + 1,
        event matches WorkerEvent::FeeKnown(Ok(_)) ==> r.0.counts.errors == worker.counts.errors
            + if r.1 is Report {
            1int
        } else {
            0int
        },
        event matches WorkerEvent::FeeKnown(Err(_)) ==> r.0.counts == worker.counts,
{
}

/// No count ever goes back, not even one that is full.
pub proof fn counts_never_go_back(
    worker: Worker,
    event: WorkerEvent,
    decoded: Result<TxEnvelope, Seq<char>>,
    compressed: Option<Seq<u8>>,
    r: (Worker, WorkerAction),
)
    requires
        expects(worker.phase, event),
        transition(worker, event, decoded, compressed, r),
    ensures
        worker.counts.processed <= r.0.counts.processed <= worker.counts.processed + 1,
        worker.counts.errors <= r.0.counts.errors <= worker.counts.errors + 1,
{
}

} // verus!
