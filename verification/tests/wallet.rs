use igra_rpc_provider::clients::wallet_caller::{
    CheckedBatch, CreationStep, GrpcReply, GrpcStatus, LaneSubmission, PasswordLookup, SigningStep,
    TransactionParams, WalletCaller, WalletCallerError,
};
use igra_rpc_provider::config::{IgraConfig, RetryConfig, WalletConfig};
use igra_rpc_provider::error::AppError;
use igra_rpc_provider::types::wallet::{
    is_partially_signed, kaspa_transaction_to_proto, partial_proto_transaction,
    proto_transaction_to_kaspa, KaspaInput, KaspaOutput, KaspaTransaction, KaspaWalletError,
    ScriptPublicKey, SignableTransaction, Signed, SignedTransaction, Transaction, TransactionInput,
    TransactionOutpoint, TransactionOutput, TxInputMass, WalletSignableTransaction,
};

fn lane(namespace: [u8; 4]) -> [u8; 20] {
    let mut out = [0u8; 20];
    out[..4].copy_from_slice(&namespace);
    out
}

fn caller_with_lane(lane_id: [u8; 20]) -> WalletCaller {
    WalletCaller {
        to_address: "kaspa:test".to_string(),
        password: "test".to_string(),
        lane_id,
    }
}

fn dummy_output() -> TransactionOutput {
    TransactionOutput {
        value: 1,
        script_public_key: Some(ScriptPublicKey {
            version: 0,
            script_public_key: "00".to_string(),
        }),
    }
}

fn make_proto_tx(
    version: u32,
    subnetwork_id: Vec<u8>,
    payload: Vec<u8>,
    inputs: Vec<TransactionInput>,
) -> Transaction {
    Transaction {
        version,
        inputs,
        outputs: vec![dummy_output()],
        lock_time: 0,
        subnetwork_id,
        gas: 0,
        payload,
        mass: 0,
        id: vec![],
    }
}

fn wrap_signed(
    tx: Transaction,
    variant: impl FnOnce(SignableTransaction) -> Signed,
) -> WalletSignableTransaction {
    WalletSignableTransaction {
        transaction: Some(SignedTransaction {
            signed: Some(variant(SignableTransaction { tx: Some(tx) })),
        }),
    }
}

fn wrap_partial(tx: Transaction) -> WalletSignableTransaction {
    wrap_signed(tx, Signed::Partially)
}

fn wrap_fully(tx: Transaction) -> WalletSignableTransaction {
    wrap_signed(tx, Signed::Fully)
}

fn compute_budget_input(compute_budget: u32) -> TransactionInput {
    TransactionInput {
        previous_outpoint: Some(TransactionOutpoint {
            transaction_id: vec![0u8; 32],
            index: 0,
        }),
        signature_script: vec![],
        sequence: 0,
        sig_op_count: 0,
        compute_budget,
    }
}

fn status(code: i32, message: &str) -> GrpcStatus {
    GrpcStatus {
        code,
        message: message.to_string(),
        text: format!("status {code}: {message}"),
    }
}

fn invalid_argument(message: &str) -> GrpcStatus {
    status(3, message)
}

fn resource_exhausted(message: &str) -> GrpcStatus {
    status(8, message)
}

#[test]
fn validate_accepts_v1_matching_lane_and_payload() {
    let lane_id = lane([0x97, 0xb1, 0x00, 0x00]);
    let caller = caller_with_lane(lane_id);
    let payload = vec![1u8, 2, 3, 4, 5];
    let tx = make_proto_tx(
        1,
        lane_id.to_vec(),
        payload.clone(),
        vec![compute_budget_input(42)],
    );
    let txs = vec![wrap_partial(tx)];
    caller
        .validate_lane_transaction(&txs, &payload)
        .expect("v1 + matching lane + matching payload + compute_budget input must pass");
}

#[test]
fn validate_rejects_native_lane_tx() {
    let lane_id = lane([0x97, 0xb1, 0x00, 0x00]);
    let caller = caller_with_lane(lane_id);
    let payload = vec![1u8, 2, 3];
    let native = [0u8; 20];
    let tx = make_proto_tx(
        1,
        native.to_vec(),
        payload.clone(),
        vec![compute_budget_input(1)],
    );
    let txs = vec![wrap_partial(tx)];
    let err = caller
        .validate_lane_transaction(&txs, &payload)
        .expect_err("native lane id must be rejected");
    assert!(err.contains("subnetwork_id"), "msg was: {err}");
}

#[test]
fn validate_rejects_wrong_non_native_lane_tx() {
    let configured = lane([0x97, 0xb1, 0x00, 0x00]);
    let other = lane([0x12, 0x34, 0x56, 0x78]);
    let caller = caller_with_lane(configured);
    let payload = vec![9u8];
    let tx = make_proto_tx(
        1,
        other.to_vec(),
        payload.clone(),
        vec![compute_budget_input(1)],
    );
    let txs = vec![wrap_partial(tx)];
    let err = caller
        .validate_lane_transaction(&txs, &payload)
        .expect_err("wrong lane id must be rejected");
    assert!(err.contains("subnetwork_id"), "msg was: {err}");
    assert_eq!(
        err,
        "payload tx #0 subnetwork_id: expected 0x97b1000000000000000000000000000000000000 (configured IGRA lane), got 0x1234567800000000000000000000000000000000"
    );
}

#[test]
fn validate_rejects_v0_transaction() {
    let lane_id = lane([0x97, 0xb1, 0x00, 0x00]);
    let caller = caller_with_lane(lane_id);
    let payload = vec![0xAB];
    let tx = make_proto_tx(0, lane_id.to_vec(), payload.clone(), vec![]);
    let txs = vec![wrap_partial(tx)];
    let err = caller
        .validate_lane_transaction(&txs, &payload)
        .expect_err("v0 transaction must be rejected");
    assert!(err.contains("version"), "msg was: {err}");
    assert!(err.contains("expected 1"), "msg was: {err}");
    assert!(err.contains("got 0"), "msg was: {err}");
}

#[test]
fn validate_rejects_payload_mismatch() {
    let lane_id = lane([0x97, 0xb1, 0x00, 0x00]);
    let caller = caller_with_lane(lane_id);
    let expected = vec![1u8, 2, 3];
    let mismatched = vec![9u8, 9, 9];
    let tx = make_proto_tx(
        1,
        lane_id.to_vec(),
        mismatched,
        vec![compute_budget_input(1)],
    );
    let txs = vec![wrap_partial(tx)];
    let err = caller
        .validate_lane_transaction(&txs, &expected)
        .expect_err("payload mismatch must be rejected");
    assert!(err.contains("payload"), "msg was: {err}");
    assert_eq!(
        err,
        "payload tx #0 payload: expected 3 bytes, got 3 bytes (contents differ)"
    );
    let err = caller
        .validate_lane_transaction(&txs, &[1, 2])
        .expect_err("payload mismatch must be rejected");
    assert_eq!(
        err,
        "payload tx #0 payload: expected 2 bytes, got 3 bytes"
    );
}

#[test]
fn validate_rejects_v1_input_using_sig_op_count() {
    let lane_id = lane([0x97, 0xb1, 0x00, 0x00]);
    let caller = caller_with_lane(lane_id);
    let payload = vec![1u8];
    let legacy_input = TransactionInput {
        previous_outpoint: Some(TransactionOutpoint {
            transaction_id: vec![0u8; 32],
            index: 0,
        }),
        signature_script: vec![],
        sequence: 0,
        sig_op_count: 1,
        compute_budget: 42,
    };
    let tx = make_proto_tx(1, lane_id.to_vec(), payload.clone(), vec![legacy_input]);
    let txs = vec![wrap_partial(tx)];
    let err = caller
        .validate_lane_transaction(&txs, &payload)
        .expect_err("v1 input with non-zero sig_op_count must be rejected");
    assert!(err.contains("sig_op_count"), "msg was: {err}");
    assert!(err.contains("expected 0"), "msg was: {err}");
}

#[test]
fn validate_rejects_v1_input_with_zero_compute_budget() {
    let lane_id = lane([0x97, 0xb1, 0x00, 0x00]);
    let caller = caller_with_lane(lane_id);
    let payload = vec![1u8];
    let zero_mass_input = compute_budget_input(0);
    let tx = make_proto_tx(1, lane_id.to_vec(), payload.clone(), vec![zero_mass_input]);
    let txs = vec![wrap_partial(tx)];
    let err = caller
        .validate_lane_transaction(&txs, &payload)
        .expect_err("v1 input with compute_budget == 0 must be rejected");
    assert!(err.contains("compute_budget"), "msg was: {err}");
    assert!(err.contains("expected > 0"), "msg was: {err}");
}

#[test]
fn validate_rejects_v1_with_no_inputs() {
    let lane_id = lane([0x97, 0xb1, 0x00, 0x00]);
    let caller = caller_with_lane(lane_id);
    let payload = vec![1u8];
    let tx = make_proto_tx(1, lane_id.to_vec(), payload.clone(), vec![]);
    let txs = vec![wrap_partial(tx)];
    let err = caller
        .validate_lane_transaction(&txs, &payload)
        .expect_err("v1 tx with zero inputs must be rejected");
    assert!(err.contains("no inputs"), "msg was: {err}");
}

#[test]
fn validate_rejects_fully_signed_transaction() {
    let lane_id = lane([0x97, 0xb1, 0x00, 0x00]);
    let caller = caller_with_lane(lane_id);
    let payload = vec![1u8];
    let tx = make_proto_tx(
        1,
        lane_id.to_vec(),
        payload.clone(),
        vec![compute_budget_input(1)],
    );
    let txs = vec![wrap_fully(tx)];
    let err = caller
        .validate_lane_transaction(&txs, &payload)
        .expect_err("fully signed transaction must be rejected at validation step");
    assert!(err.contains("Partially"), "msg was: {err}");
}

#[test]
fn validate_rejects_empty_tx_vector() {
    let lane_id = lane([0x97, 0xb1, 0x00, 0x00]);
    let caller = caller_with_lane(lane_id);
    let err = caller
        .validate_lane_transaction(&[], &[])
        .expect_err("empty tx vector must be rejected");
    assert!(err.contains("no unsigned transactions"), "msg was: {err}");
}

#[test]
fn validate_rejects_v1_input_with_compute_budget_above_u16_max() {
    let lane_id = lane([0x97, 0xb1, 0x00, 0x00]);
    let caller = caller_with_lane(lane_id);
    let payload = vec![1u8];
    let oversized = u32::from(u16::MAX) + 1;
    let tx = make_proto_tx(
        1,
        lane_id.to_vec(),
        payload.clone(),
        vec![compute_budget_input(oversized)],
    );
    let txs = vec![wrap_partial(tx)];
    let err = caller
        .validate_lane_transaction(&txs, &payload)
        .expect_err("compute_budget above u16::MAX must be rejected");
    assert!(err.contains("compute_budget"), "msg was: {err}");
    assert!(err.contains("u16::MAX"), "msg was: {err}");
}

#[test]
fn validate_rejects_non_zero_lock_time() {
    let lane_id = lane([0x97, 0xb1, 0x00, 0x00]);
    let caller = caller_with_lane(lane_id);
    let payload = vec![1u8];
    let mut tx = make_proto_tx(
        1,
        lane_id.to_vec(),
        payload.clone(),
        vec![compute_budget_input(1)],
    );
    tx.lock_time = 42;
    let txs = vec![wrap_partial(tx)];
    let err = caller
        .validate_lane_transaction(&txs, &payload)
        .expect_err("non-zero lock_time must be rejected on IGRA-lane tx");
    assert!(err.contains("lock_time"), "msg was: {err}");
}

#[test]
fn validate_rejects_non_zero_gas() {
    let lane_id = lane([0x97, 0xb1, 0x00, 0x00]);
    let caller = caller_with_lane(lane_id);
    let payload = vec![1u8];
    let mut tx = make_proto_tx(
        1,
        lane_id.to_vec(),
        payload.clone(),
        vec![compute_budget_input(1)],
    );
    tx.gas = 7;
    let txs = vec![wrap_partial(tx)];
    let err = caller
        .validate_lane_transaction(&txs, &payload)
        .expect_err("non-zero gas must be rejected on IGRA-lane tx");
    assert!(err.contains("gas"), "msg was: {err}");
}

#[test]
fn validate_rejects_empty_outputs() {
    let lane_id = lane([0x97, 0xb1, 0x00, 0x00]);
    let caller = caller_with_lane(lane_id);
    let payload = vec![1u8];
    let mut tx = make_proto_tx(
        1,
        lane_id.to_vec(),
        payload.clone(),
        vec![compute_budget_input(1)],
    );
    tx.outputs.clear();
    let txs = vec![wrap_partial(tx)];
    let err = caller
        .validate_lane_transaction(&txs, &payload)
        .expect_err("zero outputs must be rejected");
    assert!(err.contains("outputs"), "msg was: {err}");
    assert!(err.contains("at least 1"), "msg was: {err}");
}

#[test]
fn validate_rejects_too_many_outputs() {
    let lane_id = lane([0x97, 0xb1, 0x00, 0x00]);
    let caller = caller_with_lane(lane_id);
    let payload = vec![1u8];
    let mut tx = make_proto_tx(
        1,
        lane_id.to_vec(),
        payload.clone(),
        vec![compute_budget_input(1)],
    );
    tx.outputs = vec![dummy_output(), dummy_output(), dummy_output()];
    let txs = vec![wrap_partial(tx)];
    let err = caller
        .validate_lane_transaction(&txs, &payload)
        .expect_err("more than MAX_OUTPUTS_PER_LANE_TX outputs must be rejected");
    assert!(err.contains("outputs"), "msg was: {err}");
    assert!(err.contains("at most"), "msg was: {err}");
}

#[test]
fn validate_rejects_empty_subnetwork_id() {
    let lane_id = lane([0x97, 0xb1, 0x00, 0x00]);
    let caller = caller_with_lane(lane_id);
    let payload = vec![1u8];
    let tx = make_proto_tx(1, vec![], payload.clone(), vec![compute_budget_input(1)]);
    let txs = vec![wrap_partial(tx)];
    let err = caller
        .validate_lane_transaction(&txs, &payload)
        .expect_err("empty subnetwork_id must be rejected with explicit naming");
    assert!(err.contains("empty subnetwork_id"), "msg was: {err}");
}

#[test]
fn validate_rejects_short_subnetwork_id() {
    let lane_id = lane([0x97, 0xb1, 0x00, 0x00]);
    let caller = caller_with_lane(lane_id);
    let payload = vec![1u8];
    let tx = make_proto_tx(
        1,
        vec![0x97, 0xb1],
        payload.clone(),
        vec![compute_budget_input(1)],
    );
    let txs = vec![wrap_partial(tx)];
    let err = caller
        .validate_lane_transaction(&txs, &payload)
        .expect_err("short subnetwork_id must be rejected");
    assert!(err.contains("2-byte"), "msg was: {err}");
}

#[test]
fn validate_walks_every_tx_and_rejects_off_lane_pre_stage() {
    let lane_id = lane([0x97, 0xb1, 0x00, 0x00]);
    let other = lane([0x12, 0x34, 0x00, 0x00]);
    let caller = caller_with_lane(lane_id);
    let payload = vec![1u8];
    let prestage = make_proto_tx(1, other.to_vec(), vec![], vec![compute_budget_input(1)]);
    let payload_tx = make_proto_tx(
        1,
        lane_id.to_vec(),
        payload.clone(),
        vec![compute_budget_input(1)],
    );
    let txs = vec![wrap_partial(prestage), wrap_partial(payload_tx)];
    let err = caller
        .validate_lane_transaction(&txs, &payload)
        .expect_err("pre-stage tx on a different lane must be rejected");
    assert!(err.contains("pre-stage tx #0"), "msg was: {err}");
    assert!(err.contains("subnetwork_id"), "msg was: {err}");
}

#[test]
fn validate_accepts_multi_tx_when_all_on_lane_and_last_carries_payload() {
    let lane_id = lane([0x97, 0xb1, 0x00, 0x00]);
    let caller = caller_with_lane(lane_id);
    let payload = vec![1u8, 2, 3];
    let prestage = make_proto_tx(
        1,
        lane_id.to_vec(),
        vec![],
        vec![compute_budget_input(1)],
    );
    let payload_tx = make_proto_tx(
        1,
        lane_id.to_vec(),
        payload.clone(),
        vec![compute_budget_input(1)],
    );
    let txs = vec![wrap_partial(prestage), wrap_partial(payload_tx)];
    caller
        .validate_lane_transaction(&txs, &payload)
        .expect("multi-tx batch with all txs on lane and payload on the last must pass");
}

#[test]
fn validate_rejects_missing_bodies_and_later_flawed_inputs() {
    let lane_id = lane([0x97, 0xb1, 0x00, 0x00]);
    let caller = caller_with_lane(lane_id);
    let hollow = WalletSignableTransaction {
        transaction: Some(SignedTransaction {
            signed: Some(Signed::Partially(SignableTransaction { tx: None })),
        }),
    };
    assert_eq!(
        caller
            .validate_lane_transaction(&[hollow], &[])
            .expect_err("no body"),
        "payload tx #0 is missing its proto Transaction body"
    );
    let tx = make_proto_tx(
        1,
        lane_id.to_vec(),
        vec![],
        vec![compute_budget_input(1), compute_budget_input(0)],
    );
    assert_eq!(
        caller
            .validate_lane_transaction(&[wrap_partial(tx)], &[])
            .expect_err("flawed input"),
        "payload tx #0 input #1 compute_budget: expected > 0 on v1 tx (IGRA lane requires positive per-input mass), got 0"
    );
}

#[test]
fn a_batch_fits_one_lane_only() {
    let first = lane([1, 2, 3, 4]);
    let second = lane([4, 3, 2, 1]);
    let tx = make_proto_tx(1, first.to_vec(), vec![7], vec![compute_budget_input(1)]);
    let txs = vec![wrap_partial(tx)];
    assert!(caller_with_lane(first)
        .validate_lane_transaction(&txs, &[7])
        .is_ok());
    assert!(caller_with_lane(second)
        .validate_lane_transaction(&txs, &[7])
        .is_err());
}

#[test]
fn test_is_no_funds_error() {
    let status = invalid_argument("No funds to send");
    assert!(WalletCaller::is_no_funds_error(&status));

    let status = resource_exhausted("Some other message");
    assert!(WalletCaller::is_no_funds_error(&status));

    let status = invalid_argument("Different error");
    assert!(!WalletCaller::is_no_funds_error(&status));

    let status = invalid_argument("Error: No funds to send for transaction");
    assert!(WalletCaller::is_no_funds_error(&status));

    let status = invalid_argument("NO FUNDS available");
    assert!(WalletCaller::is_no_funds_error(&status));

    let status = invalid_argument("UTXO exhausted");
    assert!(WalletCaller::is_no_funds_error(&status));

    let status = invalid_argument("Insufficient UTXO balance");
    assert!(WalletCaller::is_no_funds_error(&status));
}

#[test]
fn test_is_utxo_exhaustion_error() {
    let status = invalid_argument("No funds to send");
    let error = WalletCallerError::TransactionCreationFailed(status);
    assert!(WalletCaller::is_utxo_exhaustion_error(&error));

    let status = invalid_argument("Different error");
    let error = WalletCallerError::TransactionCreationFailed(status);
    assert!(!WalletCaller::is_utxo_exhaustion_error(&error));

    let error = WalletCallerError::PasswordNotSet;
    assert!(!WalletCaller::is_utxo_exhaustion_error(&error));
}

#[test]
fn test_wallet_error_to_app_error_conversion() {
    let status = invalid_argument("No funds to send");
    let wallet_error = WalletCallerError::TransactionCreationFailed(status);
    let app_error: AppError = wallet_error.into();

    match app_error {
        AppError::UtxoExhausted => {}
        _ => panic!("Expected UtxoExhausted error"),
    }

    let status = invalid_argument("Different error");
    let wallet_error = WalletCallerError::TransactionCreationFailed(status);
    let app_error: AppError = wallet_error.into();

    match app_error {
        AppError::WalletError(msg) => {
            assert!(msg.contains("Transaction creation failed"));
        }
        _ => panic!("Expected WalletError"),
    }
}

#[test]
fn test_lane_validation_failed_to_app_error_conversion() {
    let wallet_error = WalletCallerError::LaneValidationFailed("test reason".to_string());
    let app_error: AppError = wallet_error.into();
    match app_error {
        AppError::WalletError(msg) => {
            assert!(
                msg.contains("IGRA lane validation failed"),
                "msg was: {msg}"
            );
            assert!(msg.contains("test reason"), "msg was: {msg}");
        }
        _ => panic!("expected WalletError"),
    }
}

#[test]
fn every_wallet_error_has_a_text_and_an_application_error() {
    let cases = vec![
        (
            WalletCallerError::ConnectionFailed("x".to_string()),
            "Failed to connect to wallet daemon: x",
            "Wallet error: Connection failed: x",
        ),
        (
            WalletCallerError::AddressGenerationFailed(status(2, "m")),
            "Failed to generate new address: status 2: m",
            "Wallet error: Address generation failed: status 2: m",
        ),
        (
            WalletCallerError::PasswordNotSet,
            "Wallet password environment variable KASWALLET_PASSWORD is not set",
            "Wallet error: Password not set",
        ),
        (
            WalletCallerError::PasswordInvalidUnicode,
            "Wallet password environment variable KASWALLET_PASSWORD contains invalid Unicode",
            "Wallet error: Password invalid unicode",
        ),
        (
            WalletCallerError::TransactionCreationFailed(status(2, "m")),
            "Failed to create unsigned transactions: status 2: m",
            "Wallet error: Transaction creation failed: status 2: m",
        ),
        (
            WalletCallerError::TransactionSigningFailed(status(2, "m")),
            "Failed to sign transactions: status 2: m",
            "Wallet error: Transaction signing failed: status 2: m",
        ),
        (
            WalletCallerError::TransactionBroadcastFailed(status(2, "m")),
            "Failed to broadcast transactions: status 2: m",
            "Wallet error: Transaction broadcast failed: status 2: m",
        ),
        (
            WalletCallerError::WalletDaemonError(AppError::ReadOnlyMode),
            "Wallet daemon error: Read-only mode is enabled",
            "Read-only mode is enabled",
        ),
        (
            WalletCallerError::NoTransactionIds,
            "No transaction IDs returned from broadcast",
            "Wallet error: No transaction IDs returned",
        ),
        (
            WalletCallerError::GrpcTimeout {
                operation: "sign",
                timeout_seconds: 30,
            },
            "Wallet gRPC call 'sign' timed out after 30s",
            "Wallet error: Wallet gRPC sign timed out after 30s",
        ),
    ];
    for (error, text, app_text) in cases {
        assert_eq!(error.to_string(), text);
        assert_eq!(AppError::from(error).to_string(), app_text);
    }
}

fn lane_params(payload: Vec<u8>) -> TransactionParams {
    TransactionParams::send_all("kaspa:test".to_string(), payload, Some("0xab".to_string()))
}

fn fitting(lane_id: [u8; 20], payload: Vec<u8>) -> Vec<WalletSignableTransaction> {
    vec![wrap_partial(make_proto_tx(
        1,
        lane_id.to_vec(),
        payload,
        vec![compute_budget_input(1)],
    ))]
}

fn started(max_attempts: u32) -> LaneSubmission {
    let retry = RetryConfig {
        max_attempts,
        ..RetryConfig::default()
    };
    let caller = caller_with_lane(lane([1, 2, 3, 4]));
    match caller.create_sign_and_broadcast_igra_lane_transaction(lane_params(vec![5]), &retry) {
        CreationStep::Request(submission) => submission,
        other => panic!("unexpected {other:?}"),
    }
}

fn checked() -> CheckedBatch {
    let answer = Ok(fitting(lane([1, 2, 3, 4]), vec![5]));
    match started(5).answered(answer, 0) {
        CreationStep::Sign(batch) => batch,
        other => panic!("unexpected {other:?}"),
    }
}

#[test]
fn exhausted_wallets_are_asked_again_within_the_limit() {
    let mut submission = started(3);
    let exhausted =
        || Err(WalletCallerError::TransactionCreationFailed(resource_exhausted("later")));
    for (attempt, expected) in [(1, 75), (2, 150)] {
        assert_eq!(submission.attempt(), attempt);
        submission = match submission.answered(exhausted(), 0) {
            CreationStep::RetryAfter {
                delay_ms,
                submission,
            } => {
                assert_eq!(delay_ms, expected);
                submission
            }
            other => panic!("unexpected {other:?}"),
        };
    }
    assert_eq!(submission.attempt(), 3);
    match submission.answered(exhausted(), 0) {
        CreationStep::Fail(error) => assert_eq!(
            error.to_string(),
            "Wallet daemon error: Retry exhausted after 3 attempts: UTXO exhaustion"
        ),
        other => panic!("unexpected {other:?}"),
    }
}

#[test]
fn random_delays_stay_near_the_backoff() {
    let reply = GrpcReply::Failed(resource_exhausted("later"));
    match started(2).create_unsigned_transaction_with_retry(reply) {
        CreationStep::RetryAfter { delay_ms, .. } => assert!((75..=125).contains(&delay_ms)),
        other => panic!("unexpected {other:?}"),
    }
}

#[test]
fn other_errors_are_final() {
    match started(3).create_unsigned_transaction_with_retry(GrpcReply::TimedOut) {
        CreationStep::Fail(error) => assert_eq!(
            error.to_string(),
            "Wallet gRPC call 'create_unsigned_transactions' timed out after 30s"
        ),
        other => panic!("unexpected {other:?}"),
    }
    let reply = GrpcReply::Failed(invalid_argument("bad"));
    assert!(matches!(
        started(3).create_unsigned_transaction_with_retry(reply),
        CreationStep::Fail(WalletCallerError::TransactionCreationFailed(_))
    ));
}

#[test]
fn without_attempts_nothing_is_asked() {
    let retry = RetryConfig {
        max_attempts: 0,
        ..RetryConfig::default()
    };
    match LaneSubmission::start(lane_params(vec![]), &retry, [0; 20]) {
        CreationStep::Fail(error) => assert_eq!(
            error.to_string(),
            "Wallet daemon error: Retry exhausted after 0 attempts: UTXO exhaustion (no error captured)"
        ),
        other => panic!("unexpected {other:?}"),
    }
}

#[test]
fn transactions_off_the_lane_are_never_signed() {
    let foreign = fitting(lane([9, 9, 9, 9]), vec![5]);
    match started(5).create_unsigned_transaction_with_retry(GrpcReply::Answer(foreign)) {
        CreationStep::Fail(WalletCallerError::LaneValidationFailed(reason)) => {
            assert!(reason.contains("subnetwork_id"));
        }
        other => panic!("unexpected {other:?}"),
    }
    let other_payload = fitting(lane([1, 2, 3, 4]), vec![6]);
    assert!(matches!(
        started(5).create_unsigned_transaction_with_retry(GrpcReply::Answer(other_payload)),
        CreationStep::Fail(WalletCallerError::LaneValidationFailed(_))
    ));
    assert_eq!(checked().transactions().len(), 1);
}

#[test]
fn submissions_describe_what_is_to_be_created() {
    let submission = started(5);
    let description = submission.create_unsigned_transaction::<TransactionOutpoint, u64>();
    assert_eq!(description.to_address, "kaspa:test");
    assert_eq!(description.amount, 0);
    assert!(description.is_send_all);
    assert_eq!(description.payload, vec![5]);
    assert!(description.from_addresses.is_empty());
    assert!(description.utxos.is_empty());
    assert!(description.use_existing_change_address);
    assert!(description.fee_policy.is_none());
    assert_eq!(
        submission.params().l2_transaction_hash,
        Some("0xab".to_string())
    );

    let entry = TransactionParams::entry_transaction("a".to_string(), 9, vec![1]);
    assert_eq!(entry.amount, 9);
    assert!(!entry.is_send_all);
    assert_eq!(entry.l2_transaction_hash, None);
}

#[test]
fn signed_batches_are_broadcast_and_end_with_the_last_id() {
    let signed = match checked().sign_transactions(GrpcReply::Answer(vec![7u8, 8])) {
        SigningStep::Broadcast(batch) => batch,
        SigningStep::Fail(e) => panic!("unexpected {e:?}"),
    };
    assert_eq!(signed.signed(), &vec![7u8, 8]);
    let ids = vec!["a".to_string(), "b".to_string()];
    assert_eq!(
        signed
            .broadcast_transactions(GrpcReply::Answer(ids))
            .expect("broadcast"),
        "b"
    );

    assert!(matches!(
        checked().sign_transactions(GrpcReply::<()>::TimedOut),
        SigningStep::Fail(WalletCallerError::GrpcTimeout {
            operation: "sign",
            timeout_seconds: 30
        })
    ));
    assert!(matches!(
        checked().sign_transactions(GrpcReply::<()>::Failed(status(2, "m"))),
        SigningStep::Fail(WalletCallerError::TransactionSigningFailed(_))
    ));
}

#[test]
fn broadcasts_can_fail() {
    let signed = || match checked().sign_transactions(GrpcReply::Answer(())) {
        SigningStep::Broadcast(batch) => batch,
        SigningStep::Fail(e) => panic!("unexpected {e:?}"),
    };
    assert!(matches!(
        signed().broadcast_transactions(GrpcReply::Answer(vec![])),
        Err(WalletCallerError::NoTransactionIds)
    ));
    assert!(matches!(
        signed().broadcast_transactions(GrpcReply::TimedOut),
        Err(WalletCallerError::GrpcTimeout {
            operation: "broadcast",
            ..
        })
    ));
    assert!(matches!(
        signed().broadcast_transactions(GrpcReply::Failed(status(2, "m"))),
        Err(WalletCallerError::TransactionBroadcastFailed(_))
    ));
}

#[test]
fn wallets_are_set_up_from_configuration_address_and_password() {
    let igra = IgraConfig::from_namespace([1, 2, 3, 4]);
    let named = WalletConfig::new("http://w".to_string(), "kaspa:a".to_string());
    assert!(!WalletCaller::needs_new_address(&named));
    let found = || PasswordLookup::Found("secret".to_string());
    let caller = WalletCaller::new(&named, &igra, None, found()).expect("wallet");
    assert_eq!(caller.default_to_address(), "kaspa:a");
    assert_eq!(caller.password, "secret");
    assert_eq!(caller.lane_id, lane([1, 2, 3, 4]));

    let unnamed = WalletConfig::new("http://w".to_string(), String::new());
    assert!(WalletCaller::needs_new_address(&unnamed));
    let generated = Some(Ok("kaspa:new".to_string()));
    let caller = WalletCaller::new(&unnamed, &igra, generated, found()).expect("wallet");
    assert_eq!(caller.default_to_address(), "kaspa:new");

    assert!(matches!(
        WalletCaller::new(&unnamed, &igra, Some(Err(status(2, "m"))), found()),
        Err(WalletCallerError::AddressGenerationFailed(_))
    ));
    assert!(matches!(
        WalletCaller::new(&named, &igra, None, PasswordLookup::NotPresent),
        Err(WalletCallerError::PasswordNotSet)
    ));
    assert!(matches!(
        WalletCaller::new(&named, &igra, None, PasswordLookup::NotUnicode),
        Err(WalletCallerError::PasswordInvalidUnicode)
    ));
}

fn kaspa_tx(version: u16, inputs: Vec<KaspaInput>) -> KaspaTransaction {
    KaspaTransaction {
        version,
        inputs,
        outputs: vec![],
        lock_time: 0,
        subnetwork_id: [0; 20],
        gas: 0,
        payload: vec![],
    }
}

fn kaspa_input(signature_script: Vec<u8>, sequence: u64, mass: TxInputMass) -> KaspaInput {
    KaspaInput {
        transaction_id: [7u8; 32],
        index: 0,
        signature_script,
        sequence,
        mass,
    }
}

fn proto_outpoint() -> TransactionOutpoint {
    TransactionOutpoint {
        transaction_id: vec![7u8; 32],
        index: 0,
    }
}

fn plain_proto_tx(version: u32, inputs: Vec<TransactionInput>) -> Transaction {
    Transaction {
        version,
        inputs,
        outputs: vec![],
        lock_time: 0,
        subnetwork_id: vec![0; 20],
        gas: 0,
        payload: vec![],
        mass: 0,
        id: vec![],
    }
}

fn mass_input(sig_op_count: u32, compute_budget: u32) -> TransactionInput {
    TransactionInput {
        previous_outpoint: Some(proto_outpoint()),
        signature_script: vec![],
        sequence: 0,
        sig_op_count,
        compute_budget,
    }
}

#[test]
fn v1_compute_budget_input_roundtrips_through_proto() {
    let cb_value: u16 = 0xABCD;
    let input = kaspa_input(vec![0xAA, 0xBB], 42, TxInputMass::ComputeBudget(cb_value));
    let tx = kaspa_tx(1, vec![input]);

    let proto = kaspa_transaction_to_proto(&tx, 0, [0; 32]).expect("encode v1 tx");
    assert_eq!(proto.inputs.len(), 1);
    assert_eq!(proto.inputs[0].compute_budget, u32::from(cb_value));
    assert_eq!(proto.inputs[0].sig_op_count, 0);

    let decoded = proto_transaction_to_kaspa(&proto).expect("decode v1 tx");
    assert_eq!(decoded.version, 1);
    assert_eq!(decoded.inputs.len(), 1);
    match decoded.inputs[0].mass {
        TxInputMass::ComputeBudget(value) => assert_eq!(value, cb_value),
        other => panic!("expected ComputeBudget, got {other:?}"),
    }
    assert_eq!(decoded, tx);
}

#[test]
fn v0_sig_op_count_input_roundtrips_through_proto() {
    let sig_op: u8 = 5;
    let input = kaspa_input(vec![], 99, TxInputMass::SigopCount(sig_op));
    let tx = kaspa_tx(0, vec![input]);

    let proto = kaspa_transaction_to_proto(&tx, 0, [0; 32]).expect("encode v0 tx");
    assert_eq!(proto.inputs.len(), 1);
    assert_eq!(proto.inputs[0].sig_op_count, u32::from(sig_op));
    assert_eq!(proto.inputs[0].compute_budget, 0);

    let decoded = proto_transaction_to_kaspa(&proto).expect("decode v0 tx");
    assert_eq!(decoded.version, 0);
    match decoded.inputs[0].mass {
        TxInputMass::SigopCount(value) => assert_eq!(value, sig_op),
        other => panic!("expected SigopCount, got {other:?}"),
    }
    assert_eq!(decoded, tx);
}

#[test]
fn from_proto_picks_mass_field_by_tx_version() {
    let v0_tx = plain_proto_tx(0, vec![mass_input(7, 11)]);
    let decoded_v0 = proto_transaction_to_kaspa(&v0_tx).expect("decode v0");
    assert_eq!(decoded_v0.inputs[0].mass.sig_op_count(), Some(7));
    assert_eq!(decoded_v0.inputs[0].mass.compute_budget(), None);

    let v1_tx = plain_proto_tx(1, vec![mass_input(7, 11)]);
    let decoded_v1 = proto_transaction_to_kaspa(&v1_tx).expect("decode v1");
    assert_eq!(decoded_v1.inputs[0].mass.compute_budget(), Some(11));
    assert_eq!(decoded_v1.inputs[0].mass.sig_op_count(), None);
}

#[test]
fn v1_input_with_compute_budget_overflow_is_rejected() {
    let input = mass_input(0, u32::from(u16::MAX).saturating_add(1));
    let err = proto_transaction_to_kaspa(&plain_proto_tx(1, vec![input]))
        .expect_err("compute_budget > u16::MAX must be rejected");
    match err {
        KaspaWalletError::InternalServerError(msg) => {
            assert!(msg.contains("compute_budget"), "msg was: {msg}");
            assert!(msg.contains("u16::MAX"), "msg was: {msg}");
        }
        other => panic!("expected InternalServerError, got {other:?}"),
    }
}

#[test]
fn v0_input_with_sig_op_count_overflow_is_rejected() {
    let input = mass_input(u32::from(u8::MAX).saturating_add(1), 0);
    let err = proto_transaction_to_kaspa(&plain_proto_tx(0, vec![input]))
        .expect_err("sig_op_count > u8::MAX must be rejected");
    match err {
        KaspaWalletError::InternalServerError(msg) => {
            assert!(msg.contains("sig_op_count"), "msg was: {msg}");
            assert!(msg.contains("u8::MAX"), "msg was: {msg}");
        }
        other => panic!("expected InternalServerError, got {other:?}"),
    }
}

#[test]
fn is_partially_signed_recognizes_partial_variant() {
    let wst = wrap_partial(plain_proto_tx(1, vec![]));
    assert!(is_partially_signed(&wst));
    assert!(partial_proto_transaction(&wst).is_some());
}

#[test]
fn is_partially_signed_rejects_fully_variant() {
    let wst = wrap_fully(plain_proto_tx(1, vec![]));
    assert!(!is_partially_signed(&wst));
    assert!(partial_proto_transaction(&wst).is_none());
}

#[test]
fn whole_transactions_survive_the_wire() {
    let mut tx = kaspa_tx(
        2,
        vec![
            kaspa_input(vec![1], 3, TxInputMass::ComputeBudget(9)),
            kaspa_input(vec![], 4, TxInputMass::ComputeBudget(0)),
        ],
    );
    tx.outputs = vec![
        KaspaOutput {
            value: 5,
            script_version: 65535,
            script: vec![0xde, 0xad],
        },
        KaspaOutput {
            value: 6,
            script_version: 0,
            script: vec![],
        },
    ];
    tx.lock_time = 8;
    tx.gas = 9;
    tx.payload = vec![1, 2, 3];
    tx.subnetwork_id = lane([1, 2, 3, 4]);
    let proto = kaspa_transaction_to_proto(&tx, 77, [8; 32]).expect("encode");
    assert_eq!(proto.mass, 77);
    assert_eq!(proto.id, vec![8; 32]);
    assert_eq!(
        proto.outputs[0]
            .script_public_key
            .as_ref()
            .expect("script")
            .script_public_key,
        "dead"
    );
    assert_eq!(proto_transaction_to_kaspa(&proto).expect("decode"), tx);
}

#[test]
fn flawed_wire_transactions_are_told_apart() {
    let reason = |tx: &Transaction| proto_transaction_to_kaspa(tx).expect_err("flawed").to_string();

    let mut tx = plain_proto_tx(65536, vec![mass_input(0, 70000)]);
    assert_eq!(reason(&tx), "Invalid transaction version");
    tx.version = 1;
    assert_eq!(reason(&tx), "compute_budget 70000 exceeds u16::MAX");
    tx.inputs.clear();
    tx.outputs = vec![dummy_output(), dummy_output()];
    tx.subnetwork_id = vec![1, 2];
    if let Some(spk) = &mut tx.outputs[1].script_public_key {
        spk.script_public_key = "0g".to_string();
    }
    assert_eq!(
        reason(&tx),
        "Invalid script hex: Invalid character 'g' at position 1"
    );
    if let Some(spk) = &mut tx.outputs[0].script_public_key {
        spk.version = 65536;
    }
    assert_eq!(reason(&tx), "Invalid script version");
    tx.outputs.clear();
    assert_eq!(
        reason(&tx),
        "Invalid subnetwork_id length: expected 20 bytes, got 2"
    );
}

#[test]
fn missing_parts_of_wire_transactions_have_defaults() {
    let mut input = mass_input(3, 4);
    input.previous_outpoint = None;
    let mut tx = plain_proto_tx(0, vec![input]);
    tx.subnetwork_id = vec![];
    tx.outputs = vec![TransactionOutput {
        value: 2,
        script_public_key: None,
    }];
    let decoded = proto_transaction_to_kaspa(&tx).expect("decode");
    assert_eq!(decoded.inputs[0].transaction_id, [0; 32]);
    assert_eq!(decoded.inputs[0].index, 0);
    assert_eq!(decoded.subnetwork_id, [0; 20]);
    assert_eq!(decoded.outputs[0].script_version, 0);
    assert!(decoded.outputs[0].script.is_empty());
}
