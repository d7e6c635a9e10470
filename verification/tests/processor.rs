use igra_rpc_provider::clients::wallet_caller::WalletCallerError;
use igra_rpc_provider::error::AppError;
use igra_rpc_provider::services::transaction::processor::{
    admit_submission, answer_submission, fee_known, frame, identify,
    process_transaction, process_wallet_call, wallet_call_finished, Admission, ProcessingOutcome,
    TransactionRequest, WorkerCounts, WorkerStep,
};
use igra_rpc_provider::services::transaction::worker::{
    Worker, WorkerAction, WorkerEvent, WorkerPhase,
};
use igra_rpc_provider::services::transaction::request::transaction_hash_text;
use igra_rpc_provider::types::rpc::{JsonValue, RpcOutcome, RpcRequest, RpcResponse};
use igra_rpc_provider::types::u256::U256;

const LEGACY_HEX: &str = "f86c098504a817c800825208943535353535353535353535353535353535353535880de0b6b3a76400008025a028ef61340bd939bc2195fe537567866003e1a15d3c71ff63e1590620aa636276a067cbe9d8997f761aecb703304b3800ccf555c9f3dc64214b297fb1966a3b6d83";

fn legacy_bytes() -> Vec<u8> {
    hex::decode(LEGACY_HEX).expect("Valid hex string")
}

fn request(raw_tx: &str, id: JsonValue) -> RpcRequest {
    RpcRequest {
        jsonrpc: "2.0".to_string(),
        method: "eth_sendRawTransaction".to_string(),
        params: vec![JsonValue::String(raw_tx.to_string())],
        id,
    }
}

fn id() -> JsonValue {
    JsonValue::Other("3".to_string())
}

fn error_parts(response: &RpcResponse) -> (i64, String) {
    match &response.outcome {
        RpcOutcome::Error { code, message } => (*code, message.clone()),
        RpcOutcome::Result(_) => panic!("expected an error"),
    }
}

#[test]
fn well_formed_submissions_are_queued_with_their_hash() {
    let raw = format!("0x{LEGACY_HEX}");
    match process_transaction(&request(&raw, id())) {
        Admission::Queue { request, hash } => {
            assert_eq!(request.raw_tx, raw);
            assert_eq!(request.tx_bytes, legacy_bytes());
            assert_eq!(request.id, id());
            assert_eq!(hash, transaction_hash_text(&legacy_bytes()));
            assert_eq!(
                hash,
                "0x33469b22e9f636356c4160a87eb19df52b7412e8eac32a4a55ffe88ea8350788"
            );
        }
        Admission::Refuse(response) => panic!("unexpected {response:?}"),
    }
}

#[test]
fn submissions_without_identifier_get_one() {
    let raw = format!("0x{LEGACY_HEX}");
    let uuid = 0x0123_4567_89ab_4cde_8f01_2345_6789_abcdu128;
    match admit_submission(&request(&raw, JsonValue::Null), uuid) {
        Admission::Queue { request, .. } => assert_eq!(
            request.id,
            JsonValue::String("01234567-89ab-4cde-8f01-23456789abcd".to_string())
        ),
        Admission::Refuse(response) => panic!("unexpected {response:?}"),
    }
    match process_transaction(&request(&raw, JsonValue::Null)) {
        Admission::Queue {
            request:
                TransactionRequest {
                    id: JsonValue::String(text),
                    ..
                },
            ..
        } => {
            assert_eq!(text.len(), 36);
            assert_eq!(text.as_bytes()[14], b'4');
            assert!(matches!(text.as_bytes()[19], b'8' | b'9' | b'a' | b'b'));
        }
        other => panic!("unexpected {other:?}"),
    }
    assert_eq!(identify(&id(), uuid), id());
}

#[test]
fn refused_submissions_keep_their_own_identifier() {
    for id in [JsonValue::Null, id(), JsonValue::String("a".to_string())] {
        for raw in ["zz", "0xzz"] {
            match process_transaction(&request(raw, id.clone())) {
                Admission::Refuse(response) => {
                    assert_eq!(response.id, id);
                    assert_eq!(
                        error_parts(&response),
                        (-32001, "Invalid L2 transaction format".to_string())
                    );
                }
                Admission::Queue { .. } => panic!("queued"),
            }
        }
    }
}

#[test]
fn clients_get_the_hash_only_on_success() {
    let answer = |outcome| answer_submission(id(), "0xab".to_string(), outcome, 90);

    let done = answer(ProcessingOutcome::Processed(Ok(())));
    assert_eq!(done.id, id());
    assert_eq!(
        done.outcome,
        RpcOutcome::Result(JsonValue::String("0xab".to_string()))
    );

    let cases = vec![
        (
            ProcessingOutcome::NotQueued,
            -32005,
            "Transaction queue is full (capacity 1024)",
        ),
        (
            ProcessingOutcome::Processed(Err("no".to_string())),
            -32603,
            "Error processing transaction: no",
        ),
        (
            ProcessingOutcome::WorkerGone,
            -32603,
            "Internal error: Transaction processor channel closed unexpectedly",
        ),
        (
            ProcessingOutcome::TimedOut,
            -32000,
            "Transaction processing timed out after 90 seconds",
        ),
    ];
    for (outcome, code, message) in cases {
        let response = answer(outcome);
        assert_eq!(response.id, id());
        assert_eq!(error_parts(&response), (code, message.to_string()));
    }
}

#[test]
fn workers_hand_paying_transactions_to_the_wallet() {
    let enough = fee_known(&legacy_bytes(), &id(), Ok(U256::from_u128(20_000_000_000)));
    assert!(matches!(enough, WorkerStep::CallWallet));

    match fee_known(&legacy_bytes(), &id(), Ok(U256::from_u128(20_000_000_001))) {
        WorkerStep::Fail(message) => assert_eq!(
            message,
            "Insufficient gas fee: required 20000000001 wei, provided 20000000000 wei"
        ),
        other => panic!("unexpected {other:?}"),
    }

    let unknown = AppError::Internal("down".to_string());
    match fee_known(&legacy_bytes(), &id(), Err(unknown)) {
        WorkerStep::Reject(message) => {
            assert_eq!(message, "Failed to fetch base fee: Internal error: down");
        }
        other => panic!("unexpected {other:?}"),
    }
}

#[test]
fn workers_count_what_they_do() {
    let counts = WorkerCounts::new().count(true).count(false).count(true);
    assert_eq!(counts.processed, 2);
    assert_eq!(counts.errors, 1);
    let full = WorkerCounts {
        processed: u16::MAX,
        errors: u16::MAX,
    };
    assert_eq!(full.count(true), full);
    assert_eq!(full.count(false), full);
}

#[test]
fn frames_can_be_taken_apart_again() {
    let tx = [1u8, 2, 3];
    assert_eq!(
        frame(&tx, None).expect("frame"),
        vec![0x94, 1, 2, 3, 0, 0, 0, 0]
    );
    assert_eq!(
        frame(&tx, Some(vec![7, 8])).expect("frame"),
        vec![0x95, 7, 8, 0, 0, 0, 0]
    );
    assert_eq!(
        frame(&[], None).expect_err("empty"),
        "Failed to serialize payload: Payload serialization error: l2_data cannot be empty"
    );
}

#[test]
fn wallet_calls_carry_the_frame_and_the_hash_of_the_bytes() {
    let repetitive = vec![0x11u8; 500];
    let params = process_wallet_call(&repetitive, "kaspa:a").expect("params");
    assert_eq!(params.to_address, "kaspa:a");
    assert!(params.is_send_all);
    assert_eq!(params.payload[0], 0x95);
    assert!(params.payload.len() < 100);
    assert_eq!(
        params.l2_transaction_hash,
        Some(transaction_hash_text(&repetitive))
    );

    let dense = process_wallet_call(&[1, 2, 3], "kaspa:a").expect("params");
    assert_eq!(dense.payload, vec![0x94, 1, 2, 3, 0, 0, 0, 0]);

    assert!(process_wallet_call(&[], "kaspa:a").is_err());
    for length in 1..40 {
        assert!(process_wallet_call(&vec![0u8; length], "kaspa:a").is_ok());
    }
}

#[test]
fn ends_of_wallet_calls_are_reported() {
    let response = wallet_call_finished(Ok("txid".to_string()), id(), "0xab".to_string())
        .expect("response");
    assert_eq!(
        response.outcome,
        RpcOutcome::Result(JsonValue::String("0xab".to_string()))
    );
    assert_eq!(
        wallet_call_finished(
            Err(WalletCallerError::NoTransactionIds),
            id(),
            "0xab".to_string()
        )
        .expect_err("failure"),
        "KASPA Wallet call failed: No transaction IDs returned from broadcast"
    );
}

fn queued(tx_bytes: Vec<u8>) -> TransactionRequest {
    TransactionRequest {
        raw_tx: String::new(),
        tx_bytes,
        id: id(),
    }
}

fn report(action: WorkerAction) -> Result<(), String> {
    match action {
        WorkerAction::Report(report) => report,
        other => panic!("expected a report, got {other:?}"),
    }
}

#[test]
fn workers_take_a_transaction_from_queue_to_report() {
    let worker = Worker::new("kaspa:a".to_string());
    let (worker, action) = worker.step(WorkerEvent::Received(queued(legacy_bytes())));
    assert!(matches!(action, WorkerAction::FetchFee));
    assert!(matches!(worker.phase, WorkerPhase::Pricing(_)));

    let (worker, action) = worker.step(WorkerEvent::FeeKnown(Ok(U256::from_u128(1))));
    match action {
        WorkerAction::CallWallet(params) => {
            assert_eq!(params.to_address, "kaspa:a");
            assert_eq!(
                params.l2_transaction_hash,
                Some(transaction_hash_text(&legacy_bytes()))
            );
        }
        other => panic!("unexpected {other:?}"),
    }
    assert!(matches!(worker.phase, WorkerPhase::Paying(_)));

    let (worker, action) = worker.step(WorkerEvent::WalletDone(Ok("txid".to_string())));
    assert_eq!(report(action), Ok(()));
    assert!(matches!(worker.phase, WorkerPhase::Idle));
    assert_eq!(worker.counts.processed, 1);
    assert_eq!(worker.counts.errors, 0);
}

#[test]
fn workers_report_and_count_failures() {
    let worker = Worker::new("kaspa:a".to_string());

    let (worker, _) = worker.step(WorkerEvent::Received(queued(legacy_bytes())));
    let down = AppError::Internal("down".to_string());
    let (worker, action) = worker.step(WorkerEvent::FeeKnown(Err(down)));
    assert_eq!(
        report(action),
        Err("Failed to fetch base fee: Internal error: down".to_string())
    );
    assert_eq!(worker.counts.errors, 0);

    let (worker, _) = worker.step(WorkerEvent::Received(queued(legacy_bytes())));
    let high = U256::from_u128(u128::MAX);
    let (worker, action) = worker.step(WorkerEvent::FeeKnown(Ok(high)));
    assert!(report(action)
        .expect_err("too low")
        .starts_with("Insufficient gas fee"));
    assert_eq!(worker.counts.errors, 1);

    let (worker, _) = worker.step(WorkerEvent::Received(queued(legacy_bytes())));
    let (worker, _) = worker.step(WorkerEvent::FeeKnown(Ok(U256::from_u128(1))));
    let failed = Err(WalletCallerError::PasswordNotSet);
    let (worker, action) = worker.step(WorkerEvent::WalletDone(failed));
    assert!(report(action)
        .expect_err("wallet")
        .starts_with("KASPA Wallet call failed: "));
    assert_eq!(worker.counts.errors, 2);
    assert_eq!(worker.counts.processed, 0);
}
