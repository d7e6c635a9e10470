use igra_rpc_provider::error::AppError;
use igra_rpc_provider::errors::transaction::TransactionError;
use igra_rpc_provider::services::transaction::payload::{build_payload, compress_zlib};
use igra_rpc_provider::services::transaction::{
    compute_transaction_hash, detect_transaction_type, extract_gas_fees, get_transaction_type_name,
    parse_rlp_transaction, serialize_payload, tx_types, validate_eip1559,
    validate_gas_fee_with_type, validate_legacy_or_eip2930, validate_transaction_request,
    GasFeeInfo,
};
use igra_rpc_provider::services::transaction::fees::{check_encoding, finish_decoding};
use igra_rpc_provider::services::transaction::request::{
    decode_hex_transaction, extract_raw_transaction, extract_transaction_id, judge_parsed, transaction_hash_text,
    validate_transaction_fees, TransactionValidationContext,
};
use igra_rpc_provider::types::envelope::TxEnvelope;
use igra_rpc_provider::types::rpc::{IgraPayload, JsonValue, RpcOutcome, RpcRequest, TxTypeId};
use igra_rpc_provider::types::u256::U256;
use std::io::Read;

const EIP1559_HEX: &str = "02f8d7824bd8820b558601d1a94a20018601d1a94a200182bf68940000000000000000000000000000000000feedad80b8645f872f55000000000000000000000000000000000000000000000000000000000026337595a0dc7c603d4296b70f5422daa22482d4afb088b29c426b4c9ec5ef019715a11978688306685db4f631b116ed0eeae19876fc9da3f3517653c8b35dee36ee90c080a01d70b4425acf0c6089788788fc51c1c2ef4e3f18203a2653fd462d9fc16bc0bba06b21e05530fa4d4b4ea243d15b4afcb08728cfbe3b788fcbf11687f542fa446f";

const LEGACY_HEX: &str = "f86c098504a817c800825208943535353535353535353535353535353535353535880de0b6b3a76400008025a028ef61340bd939bc2195fe537567866003e1a15d3c71ff63e1590620aa636276a067cbe9d8997f761aecb703304b3800ccf555c9f3dc64214b297fb1966a3b6d83";

fn get_test_eip1559_tx() -> (TxEnvelope, u8) {
    let tx_bytes = hex::decode(EIP1559_HEX).expect("Valid hex string");
    parse_rlp_transaction(&tx_bytes).expect("Should parse test transaction")
}

fn get_test_legacy_tx() -> (TxEnvelope, u8) {
    let tx_bytes = hex::decode(LEGACY_HEX).expect("Valid hex string");
    parse_rlp_transaction(&tx_bytes).expect("Should parse test legacy transaction")
}

fn request(raw_tx: &str) -> RpcRequest {
    RpcRequest {
        jsonrpc: "2.0".to_string(),
        method: "eth_sendRawTransaction".to_string(),
        params: vec![JsonValue::String(raw_tx.to_string())],
        id: JsonValue::Other("7".to_string()),
    }
}

fn error_parts(outcome: &RpcOutcome) -> (i64, String) {
    match outcome {
        RpcOutcome::Error { code, message } => (*code, message.clone()),
        RpcOutcome::Result(_) => panic!("expected an error"),
    }
}

#[test]
fn test_serialize_payload_success() {
    let payload = IgraPayload {
        version: 0x9,
        tx_type_id: TxTypeId::Entry,
        l2_data: vec![1, 2, 3, 4],
        nonce: [5, 6, 7, 8],
    };

    let result =
        serialize_payload(&payload).expect("Serialization of a valid payload should not fail");

    assert_eq!(result.len(), 1 + 4 + 4);
    assert_eq!(result[0], 0x92);
    assert_eq!(result[1..5], [1, 2, 3, 4]);
    assert_eq!(result[5..9], [5, 6, 7, 8]);
}

#[test]
fn test_serialize_payload_empty_l2_data() {
    let payload = IgraPayload {
        version: 0x9,
        tx_type_id: TxTypeId::Entry,
        l2_data: vec![],
        nonce: [0; 4],
    };

    let result = serialize_payload(&payload);
    assert!(result.is_err());
    if let Err(AppError::SerializationError(msg)) = result {
        assert_eq!(msg, "l2_data cannot be empty");
    } else {
        panic!("Expected a SerializationError, but got {result:?}")
    }
}

#[test]
fn serialize_payload_refuses_wide_versions() {
    let payload = IgraPayload {
        version: 0x1f,
        tx_type_id: TxTypeId::L2Start,
        l2_data: vec![1],
        nonce: [0; 4],
    };
    match serialize_payload(&payload) {
        Err(AppError::SerializationError(msg)) => {
            assert_eq!(msg, "Version must be a 4-bit value, but got 0x1f");
        }
        other => panic!("unexpected {other:?}"),
    }
}

#[test]
fn test_detect_legacy_transaction_type() {
    let legacy_tx_data = [0xf8, 0x64, 0x01];
    let result = detect_transaction_type(&legacy_tx_data);
    assert!(result.is_ok());
    assert_eq!(
        result.expect("Should detect legacy transaction type"),
        tx_types::LEGACY
    );
}

#[test]
fn test_detect_eip2930_transaction_type() {
    let eip2930_tx_data = [0x01, 0xf8, 0x64, 0x01];
    let result = detect_transaction_type(&eip2930_tx_data);
    assert!(result.is_ok());
    assert_eq!(
        result.expect("Should detect EIP-2930 transaction type"),
        tx_types::EIP2930
    );
}

#[test]
fn test_detect_eip1559_transaction_type() {
    let eip1559_tx_data = [0x02, 0xf8, 0x64, 0x01];
    let result = detect_transaction_type(&eip1559_tx_data);
    assert!(result.is_ok());
    assert_eq!(
        result.expect("Should detect EIP-1559 transaction type"),
        tx_types::EIP1559
    );
}

#[test]
fn test_detect_blob_transaction_type() {
    let blob_tx_data = [0x03, 0xf8, 0x64, 0x01];
    let result = detect_transaction_type(&blob_tx_data);
    assert!(result.is_ok());
    assert_eq!(
        result.expect("Should detect blob transaction type"),
        tx_types::BLOB
    );
}

#[test]
fn test_detect_future_transaction_type() {
    let future_tx_data = [0x04, 0xf8, 0x64, 0x01];
    let result = detect_transaction_type(&future_tx_data);
    assert!(result.is_ok());
    assert_eq!(result.expect("Should detect future transaction type"), 4);
}

#[test]
fn test_detect_transaction_type_empty_data() {
    let empty_data = [];
    let result = detect_transaction_type(&empty_data);
    assert!(result.is_err());
    assert!(result
        .expect_err("Should fail on empty transaction data")
        .to_string()
        .contains("Empty transaction data"));
}

#[test]
fn test_get_transaction_type_name() {
    assert_eq!(get_transaction_type_name(tx_types::LEGACY), "Legacy");
    assert_eq!(get_transaction_type_name(tx_types::EIP2930), "EIP-2930");
    assert_eq!(get_transaction_type_name(tx_types::EIP1559), "EIP-1559");
    assert_eq!(get_transaction_type_name(tx_types::BLOB), "EIP-4844 (Blob)");
    assert_eq!(get_transaction_type_name(255), "Unknown");
}

#[test]
fn test_parse_rlp_transaction_unsupported_type() {
    let blob_tx_data = [0x03, 0xf8, 0x64, 0x01];
    let result = parse_rlp_transaction(&blob_tx_data);
    assert!(result.is_err());
    assert!(result
        .expect_err("Should fail on unsupported transaction type")
        .to_string()
        .contains("Unsupported transaction type: 3"));
}

#[test]
fn test_parse_rlp_transaction_empty_data() {
    let empty_data = [];
    let result = parse_rlp_transaction(&empty_data);
    assert!(result.is_err());
    assert!(result
        .expect_err("Should fail on empty transaction data")
        .to_string()
        .contains("Empty transaction data"));
}

#[test]
fn test_parse_rlp_transaction_too_short_typed() {
    let short_data = [0x02];
    let result = parse_rlp_transaction(&short_data);
    assert!(result.is_err());
    let error_msg = result
        .expect_err("Should fail on short typed transaction")
        .to_string();
    assert!(
        error_msg.contains("Failed to decode"),
        "Expected error message to contain 'Failed to decode', got: {}",
        error_msg
    );
}

#[test]
fn test_parse_real_eip1559_transaction() {
    let tx_bytes = hex::decode(EIP1559_HEX).expect("Valid hex string");

    let result = parse_rlp_transaction(&tx_bytes);
    assert!(
        result.is_ok(),
        "Failed to parse EIP-1559 transaction: {result:?}"
    );

    let (tx, tx_type) = result.expect("Should parse successfully");
    assert_eq!(
        tx_type,
        tx_types::EIP1559,
        "Should be detected as EIP-1559 transaction"
    );

    match &tx {
        TxEnvelope::Eip1559 {
            max_fee_per_gas,
            max_priority_fee_per_gas,
        } => {
            assert!(*max_fee_per_gas > 0, "Should have max_fee_per_gas");
            assert!(
                *max_priority_fee_per_gas > 0,
                "Should have max_priority_fee_per_gas"
            );
        }
        _ => panic!("Expected EIP-1559 transaction variant"),
    }
}

#[test]
fn test_validate_gas_fee_with_type_legacy_success() {
    let (tx, tx_type) = get_test_legacy_tx();
    assert_eq!(tx_type, tx_types::LEGACY);

    let min_protocol_fee = U256::from_u128(10_000_000_000);
    let result = validate_gas_fee_with_type(&tx, min_protocol_fee, tx_type, "0xtest");
    assert!(result.is_ok());
}

#[test]
fn test_validate_gas_fee_with_type_legacy_insufficient_fee() {
    let (tx, tx_type) = get_test_legacy_tx();
    assert_eq!(tx_type, tx_types::LEGACY);

    let min_protocol_fee = U256::from_u128(30_000_000_000);
    let result = validate_gas_fee_with_type(&tx, min_protocol_fee, tx_type, "0xtest");
    assert!(result.is_err());
    assert!(matches!(
        result.expect_err("Should fail with insufficient gas fee"),
        TransactionError::InsufficientGasFee { .. }
    ));
}

#[test]
fn test_validate_gas_fee_with_type_eip1559_success() {
    let (tx, tx_type) = get_test_eip1559_tx();
    assert_eq!(tx_type, tx_types::EIP1559);

    let min_protocol_fee = U256::from_u128(1_000_000_000_000);
    let result = validate_gas_fee_with_type(&tx, min_protocol_fee, tx_type, "0xtest");
    assert!(result.is_ok());
}

#[test]
fn test_validate_gas_fee_with_type_eip1559_insufficient_fee() {
    let (tx, tx_type) = get_test_eip1559_tx();
    assert_eq!(tx_type, tx_types::EIP1559);

    let min_protocol_fee = U256::from_u128(3_000_000_000_000);
    let result = validate_gas_fee_with_type(&tx, min_protocol_fee, tx_type, "0xtest");
    assert!(result.is_err());
    assert!(matches!(
        result.expect_err("Should fail with insufficient gas fee for EIP1559"),
        TransactionError::InsufficientGasFee { .. }
    ));
}

#[test]
fn test_validate_gas_fee_with_type_blob_transaction_rejected() {
    let (tx, _) = get_test_eip1559_tx();
    let min_protocol_fee = U256::from_u128(2_000_000_000);

    let result = validate_gas_fee_with_type(&tx, min_protocol_fee, tx_types::BLOB, "0xtest");
    assert!(result.is_err());
    let error = result.expect_err("Should fail for blob transaction type");
    assert!(matches!(
        error,
        TransactionError::InvalidTransactionFormat(_)
    ));
    assert!(error
        .to_string()
        .contains("Unsupported transaction type: 3"));
}

#[test]
fn test_validate_gas_fee_with_type_future_type_rejected() {
    let (tx, _) = get_test_eip1559_tx();
    let min_protocol_fee = U256::from_u128(2_000_000_000);

    let result = validate_gas_fee_with_type(&tx, min_protocol_fee, 99, "0xtest");
    assert!(result.is_err());
    let error = result.expect_err("Should fail for future transaction type");
    assert!(matches!(
        error,
        TransactionError::InvalidTransactionFormat(_)
    ));
    assert!(error
        .to_string()
        .contains("Unsupported transaction type: 99"));
}

#[test]
fn test_parse_rlp_transaction_size_limit() {
    let oversized_data = vec![0x02; 130 * 1024];
    let result = parse_rlp_transaction(&oversized_data);
    assert!(result.is_err());
    let error_msg = result
        .expect_err("Should fail for oversized transaction")
        .to_string();
    assert!(error_msg.contains("Transaction too large"));
    assert!(error_msg.contains("131072 bytes"));
}

#[test]
fn test_extract_gas_fees_eip1559() {
    let (tx, _) = get_test_eip1559_tx();
    let gas_info = extract_gas_fees(&tx).expect("Should extract gas fees");

    match gas_info {
        GasFeeInfo::Eip1559 {
            max_fee_per_gas,
            max_priority_fee_per_gas,
        } => {
            let zero = U256::from_u128(0);
            assert!(zero.less_than(&max_fee_per_gas));
            assert!(zero.less_than(&max_priority_fee_per_gas));
            assert!(!max_fee_per_gas.less_than(&max_priority_fee_per_gas));
        }
        _ => panic!("Expected EIP-1559 gas fee info"),
    }
}

#[test]
fn test_extract_gas_fees_legacy() {
    let (tx, _) = get_test_legacy_tx();
    let gas_info = extract_gas_fees(&tx).expect("Should extract gas fees");

    match gas_info {
        GasFeeInfo::Legacy { gas_price } => {
            assert_eq!(gas_price, U256::from_u128(20_000_000_000));
        }
        _ => panic!("Expected Legacy gas fee info"),
    }
}

#[test]
fn extract_gas_fees_refuses_blob_transactions() {
    assert!(extract_gas_fees(&TxEnvelope::Eip4844).is_err());
    assert!(extract_gas_fees(&TxEnvelope::Eip7702).is_err());
}

#[test]
fn test_eip1559_invariant_passes_for_valid_tx() {
    let (tx, tx_type) = get_test_eip1559_tx();
    assert_eq!(tx_type, tx_types::EIP1559);

    let min_protocol_fee = U256::from_u128(1_000_000_000);
    let result = validate_eip1559(&tx, min_protocol_fee, "0xtest");
    assert!(
        result.is_ok(),
        "Valid EIP-1559 transaction should pass validation"
    );
}

#[test]
fn test_serialize_payload_zipped() {
    let payload = IgraPayload {
        version: 0x9,
        tx_type_id: TxTypeId::ZippedPayload,
        l2_data: vec![1, 2, 3, 4],
        nonce: [5, 6, 7, 8],
    };

    let result =
        serialize_payload(&payload).expect("Serialization of a valid payload should not fail");

    assert_eq!(result[0], 0x95);
    assert_eq!(result[1..5], [1, 2, 3, 4]);
    assert_eq!(result[5..9], [5, 6, 7, 8]);
}

#[test]
fn test_compress_zlib_deterministic() {
    let data = vec![
        0x02, 0xf8, 0x70, 0x00, 0x00, 0x00, 0xab, 0xcd, 0xef, 0x12, 0x00, 0x00, 0x00, 0x00, 0x00,
        0x00, 0x00, 0x00, 0x00, 0x00, 0xab, 0xcd, 0xef, 0x12, 0x34, 0x56, 0x78, 0x9a, 0xbc, 0xde,
        0x00, 0x00, 0x00, 0x00, 0x00, 0x00, 0x00, 0x00, 0x00, 0x00, 0x00, 0x00, 0x00, 0x00, 0x00,
        0x00, 0x00, 0x00, 0x00, 0x00, 0xab, 0xcd, 0xab, 0xcd, 0xab, 0xcd, 0xab, 0xcd, 0xab, 0xcd,
        0xab, 0xcd, 0xab, 0xcd, 0xab, 0xcd, 0xab, 0xcd, 0xab, 0xcd, 0x00, 0x00, 0x00, 0x00, 0x00,
        0x00, 0x00, 0x00, 0x00, 0x00, 0x00, 0x00, 0x00, 0x00, 0x00, 0x00, 0x00, 0x00, 0x00, 0x00,
        0x00, 0x00, 0x00, 0x00, 0x00, 0x00, 0x00, 0x00, 0x00, 0x00,
    ];
    let result1 = compress_zlib(&data).expect("Compression should succeed");
    let result2 = compress_zlib(&data).expect("Compression should succeed");
    assert_eq!(result1, result2, "ZLIB compression must be deterministic");
    assert!(
        result1.len() < data.len(),
        "Structured data should compress smaller"
    );

    let mut decoder = flate2::read::ZlibDecoder::new(&result1[..]);
    let mut decompressed = Vec::new();
    decoder
        .read_to_end(&mut decompressed)
        .expect("Decompression should succeed");
    assert_eq!(
        decompressed, data,
        "Round-trip compression must preserve data"
    );
}

#[test]
fn test_compress_zlib_small_data_larger() {
    let small_data = vec![0xab, 0xcd, 0xef];
    let result = compress_zlib(&small_data).expect("Compression should succeed");
    assert!(
        result.len() > small_data.len(),
        "Small data should be larger after compression"
    );
}

#[test]
fn payload_is_compressed_only_where_that_is_shorter() {
    let tx = [1u8, 2, 3, 4];

    let shorter = build_payload(&tx, Some(vec![9, 9, 9]));
    assert_eq!(shorter.version, 0x9);
    assert_eq!(shorter.tx_type_id, TxTypeId::ZippedPayload);
    assert_eq!(shorter.l2_data, vec![9, 9, 9]);
    assert_eq!(shorter.nonce, [0, 0, 0, 0]);

    let as_long = build_payload(&tx, Some(vec![9, 9, 9, 9]));
    assert_eq!(as_long.tx_type_id, TxTypeId::UnzippedPayload);
    assert_eq!(as_long.l2_data, vec![1, 2, 3, 4]);

    let failed = build_payload(&tx, None);
    assert_eq!(failed.tx_type_id, TxTypeId::UnzippedPayload);
    assert_eq!(failed.l2_data, vec![1, 2, 3, 4]);
}

#[test]
fn keccak_hashes_are_spelled_in_hexadecimal() {
    let empty = compute_transaction_hash(&[]);
    assert_eq!(empty[0], 0xc5);
    assert_eq!(empty[31], 0x70);
    assert_eq!(
        transaction_hash_text(&[]),
        "0xc5d2460186f7233c927e7db2dcc703c0e500b653ca82273b7bfad8045d85a470"
    );
}

#[test]
fn legacy_transaction_decodes_to_its_gas_price() {
    let (tx, tx_type) = get_test_legacy_tx();
    assert_eq!(tx_type, tx_types::LEGACY);
    assert_eq!(
        tx,
        TxEnvelope::Legacy {
            gas_price: 20_000_000_000
        }
    );
}

#[test]
fn check_encoding_gives_type_or_reason() {
    assert_eq!(check_encoding(&[0x02, 0x01]).expect("accepted"), 2);
    assert_eq!(check_encoding(&[0xc0]).expect("accepted"), 0);
    assert_eq!(
        check_encoding(&[0x04]).expect_err("refused").to_string(),
        "Internal error: Unsupported transaction type: 4"
    );
    assert_eq!(
        check_encoding(&vec![0x02; 131073])
            .expect_err("refused")
            .to_string(),
        "Internal error: Transaction too large: 131073 bytes (max: 131072 bytes)"
    );
}

#[test]
fn finish_decoding_names_the_type() {
    assert_eq!(
        finish_decoding(2, Err("odd".to_string()))
            .expect_err("refused")
            .to_string(),
        "Internal error: Failed to decode transaction (type 2): odd"
    );
    let tx = TxEnvelope::Eip2930 { gas_price: 3 };
    assert_eq!(finish_decoding(1, Ok(tx)).expect("accepted"), (tx, 1));
}

#[test]
fn fee_rules_tell_what_is_missing() {
    let tx = TxEnvelope::Eip2930 { gas_price: 9 };
    let minimum = U256::from_u128(10);
    match validate_legacy_or_eip2930(&tx, minimum, 1, "0xtest") {
        Err(TransactionError::InsufficientGasFee { required, provided }) => {
            assert_eq!(required, "10");
            assert_eq!(provided, "9");
        }
        other => panic!("unexpected {other:?}"),
    }
    let ninth = U256::from_u128(9);
    assert!(validate_legacy_or_eip2930(&tx, ninth, 1, "0xtest").is_ok());

    let crossed = TxEnvelope::Eip1559 {
        max_fee_per_gas: 20,
        max_priority_fee_per_gas: 21,
    };
    let error = validate_eip1559(&crossed, minimum, "0xtest").expect_err("crossed fees");
    assert_eq!(
        error.to_string(),
        "EIP-1559 validation failed: max_fee_per_gas 20 wei, max_priority_fee_per_gas 21 wei, min_protocol_fee 10 wei"
    );

    let low_priority = TxEnvelope::Eip1559 {
        max_fee_per_gas: 20,
        max_priority_fee_per_gas: 9,
    };
    let error = validate_eip1559(&low_priority, minimum, "0xtest").expect_err("low priority fee");
    assert_eq!(
        error.to_string(),
        "Insufficient gas fee: required 10 wei, provided 9 wei"
    );

    let wrong = validate_eip1559(&tx, minimum, "0xtest").expect_err("wrong envelope");
    assert_eq!(
        wrong.to_string(),
        "Invalid transaction format: EIP-1559 transaction has unexpected envelope type"
    );
}

#[test]
fn accepted_fees_stay_accepted_at_lower_minimums() {
    let (tx, tx_type) = get_test_legacy_tx();
    for gwei in [20u128, 19, 5, 0] {
        let minimum = U256::from_u128(gwei * 1_000_000_000);
        assert!(validate_gas_fee_with_type(&tx, minimum, tx_type, "0xtest").is_ok());
    }
    let above = U256::from_u128(20_000_000_001);
    assert!(validate_gas_fee_with_type(&tx, above, tx_type, "0xtest").is_err());
}

#[test]
fn amounts_above_64_bits_compare_and_print() {
    let big = U256 {
        limbs: [0, 0, 1, 0],
    };
    let small = U256::from_u128(u128::MAX);
    assert!(small.less_than(&big));
    assert_eq!(small.max(big), big);
    assert_eq!(big.to_string(), "340282366920938463463374607431768211456");
}

#[test]
fn requests_with_valid_transactions_are_accepted() {
    let req = request(&format!("0x{LEGACY_HEX}"));
    let (verdict, bytes) = validate_transaction_request(&req, None);
    assert!(verdict.is_ok());
    assert_eq!(
        bytes.expect("bytes"),
        hex::decode(LEGACY_HEX).expect("Valid hex string")
    );

    let minimum = U256::from_u128(30_000_000_000);
    let (verdict, bytes) = validate_transaction_request(&req, Some(minimum));
    assert!(bytes.is_none());
    let response = verdict.expect_err("fee too low");
    assert_eq!(response.id, JsonValue::Other("7".to_string()));
    let (code, message) = error_parts(&response.outcome);
    assert_eq!(code, -32000);
    assert_eq!(
        message,
        "Insufficient gas fee: required 30000000000 wei, provided 20000000000 wei"
    );
}

#[test]
fn requests_without_hex_mark_are_refused_under_their_id() {
    for raw in ["", LEGACY_HEX, "0X00"] {
        let (verdict, bytes) = validate_transaction_request(&request(raw), None);
        assert!(bytes.is_none());
        let response = verdict.expect_err("no 0x");
        assert_eq!(response.jsonrpc, "2.0");
        assert_eq!(response.id, JsonValue::Other("7".to_string()));
        let (code, message) = error_parts(&response.outcome);
        assert_eq!(code, -32001);
        assert_eq!(message, "Invalid L2 transaction format");
    }
    assert!(extract_raw_transaction(&request("00")).is_err());
    assert_eq!(
        extract_raw_transaction(&request("0x00")).expect("marked"),
        "0x00"
    );
}

#[test]
fn requests_with_bad_digits_are_refused_under_their_id() {
    for id in [
        JsonValue::Other("1".to_string()),
        JsonValue::String("a\"b".to_string()),
        JsonValue::Null,
    ] {
        for raw in ["0xzz", "0x0z0", "0x "] {
            let mut bad = request(raw);
            bad.id = id.clone();
            let (verdict, bytes) = validate_transaction_request(&bad, None);
            assert!(bytes.is_none());
            let response = verdict.expect_err("bad digits");
            assert_eq!(response.jsonrpc, "2.0");
            assert_eq!(response.id, id);
            let (code, message) = error_parts(&response.outcome);
            assert_eq!(code, -32001);
            assert_eq!(message, "Invalid L2 transaction format");
        }
    }
    let refused =
        decode_hex_transaction("0xg", &JsonValue::String("x".to_string())).expect_err("bad digit");
    assert_eq!(refused.id, JsonValue::String("x".to_string()));
}

#[test]
fn identifiers_are_written_as_json() {
    let mut named = request("0x00");
    assert_eq!(extract_transaction_id(&named), "7");
    named.id = JsonValue::String("a\"b".to_string());
    assert_eq!(extract_transaction_id(&named), "\"a\\\"b\"");
    for (text, literal) in [
        ("", "\"\""),
        ("a\\b/c", "\"a\\\\b/c\""),
        ("\u{8}\t\n\u{c}\r", "\"\\b\\t\\n\\f\\r\""),
        ("\u{0}\u{1f}\u{b}", "\"\\u0000\\u001f\\u000b\""),
        (" \u{7f}\u{e9}\u{2028}\u{1f600}", "\" \u{7f}\u{e9}\u{2028}\u{1f600}\""),
    ] {
        named.id = JsonValue::String(text.to_string());
        assert_eq!(extract_transaction_id(&named), literal);
    }
    named.id = JsonValue::Null;
    assert_eq!(extract_transaction_id(&named), "null");
}

#[test]
fn requests_that_do_not_parse_are_format_errors() {
    let (verdict, _) = validate_transaction_request(&request("0x03f8"), None);
    let response = verdict.expect_err("blob");
    assert_eq!(response.id, JsonValue::Other("7".to_string()));
    let (code, message) = error_parts(&response.outcome);
    assert_eq!(code, -32001);
    assert_eq!(
        message,
        "Invalid transaction format: Internal error: Unsupported transaction type: 3"
    );
}

#[test]
fn odd_numbers_of_digits_are_padded() {
    assert_eq!(
        decode_hex_transaction("0xabc", &JsonValue::Null).expect("hex"),
        vec![0x0a, 0xbc]
    );
    assert_eq!(
        decode_hex_transaction("0x0abc", &JsonValue::Null).expect("hex"),
        vec![0x0a, 0xbc]
    );
    assert_eq!(
        decode_hex_transaction("0xAbCd", &JsonValue::Null).expect("hex"),
        vec![0xab, 0xcd]
    );
    assert!(decode_hex_transaction("0x", &JsonValue::Null).expect("hex").is_empty());
}

#[test]
fn every_byte_sequence_can_be_submitted() {
    let bytes: Vec<u8> = (0..=255).collect();
    let raw = format!("0x{}", hex::encode(&bytes));
    assert_eq!(decode_hex_transaction(&raw, &JsonValue::Null).expect("hex"), bytes);
}

#[test]
fn validation_contexts_hold_the_hash() {
    let bytes = hex::decode(LEGACY_HEX).expect("Valid hex string");
    let fee = U256::from_u128(5);
    let context = TransactionValidationContext::new("id".to_string(), bytes.clone(), Some(fee));
    assert_eq!(context.id(), "id");
    assert_eq!(context.bytes(), &bytes[..]);
    assert_eq!(context.base_fee(), Some(fee));
    assert_eq!(context.hash(), transaction_hash_text(&bytes));
    assert_eq!(context.hash().len(), 66);
    assert!(validate_transaction_fees(&context).is_ok());
}

#[test]
fn transaction_errors_have_codes() {
    let id = JsonValue::Null;
    let full = TransactionError::queue_full(1024).to_json_rpc_error(id.clone());
    assert_eq!(
        error_parts(&full.outcome),
        (
            -32005,
            "Transaction queue is full (capacity 1024)".to_string()
        )
    );
    let late = TransactionError::processing_timeout(120).to_json_rpc_error(id.clone());
    assert_eq!(
        error_parts(&late.outcome),
        (
            -32000,
            "Transaction processing timed out after 120 seconds".to_string()
        )
    );
    let inner = TransactionError::InternalError("x".to_string()).to_json_rpc_error(id);
    assert_eq!(
        error_parts(&inner.outcome),
        (-32603, "Internal error: x".to_string())
    );
}

#[test]
fn parsed_transactions_are_judged_by_their_fees() {
    let tx = TxEnvelope::Legacy { gas_price: 5 };
    let five = Some(U256::from_u128(5));
    let six = Some(U256::from_u128(6));
    assert!(judge_parsed(Ok((tx, 0)), None, "0xtest").is_ok());
    assert!(judge_parsed(Ok((tx, 0)), five, "0xtest").is_ok());
    assert!(judge_parsed(Ok((tx, 0)), six, "0xtest").is_err());
    let broken = TransactionError::invalid_transaction_format("odd".to_string());
    assert_eq!(
        judge_parsed(Err(broken), None, "0xtest")
            .expect_err("parse error")
            .to_string(),
        "Invalid transaction format: odd"
    );
}
