use igra_rpc_provider::api::health::{block_number_request, health_check};
use igra_rpc_provider::api::rpc::{
    handle_rpc, json_rpc_error, process_single_request, route_request_to_service,
    validate_request_authorization, EnvelopePlan, PayloadInfo, RequestContext, RequestPlan, Service,
};
use igra_rpc_provider::config::{
    AppConfig, GasConfig, LaneConfig, MiningConfig, ProxyConfig, RetryConfig, SecurityConfig,
    ServerConfig, WalletConfig,
};
use igra_rpc_provider::error::AppError;
use igra_rpc_provider::services::proxy::ElCallOutcome;
use igra_rpc_provider::types::rpc::{
    ElReply, JsonValue, RpcEnvelope, RpcOutcome, RpcRequest, RpcResponse,
};
use igra_rpc_provider::types::wallet::KaspaWalletError;
use igra_rpc_provider::types::whitelist;

fn test_config(enable_whitelist: bool, read_only: bool) -> AppConfig {
    AppConfig {
        server: ServerConfig::with_address("127.0.0.1".to_string(), 8535),
        proxy: ProxyConfig::with_el_url("http://localhost:12345".to_string()),
        wallet: WalletConfig {
            wallet_daemon_uri: "http://localhost:8082".to_string(),
            to_address: "".to_string(),
        },
        wallets: vec![],
        security: SecurityConfig {
            enable_whitelist,
            read_only,
        },
        mining: MiningConfig::default(),
        lane: LaneConfig::default(),
        gas: GasConfig::default(),
        retry: RetryConfig::default(),
    }
}

fn number(n: i64) -> JsonValue {
    JsonValue::Other(format!("{n}"))
}

fn text(s: &str) -> JsonValue {
    JsonValue::String(s.to_string())
}

fn request(method: &str, params: Vec<JsonValue>) -> RpcRequest {
    RpcRequest {
        jsonrpc: "2.0".to_string(),
        method: method.to_string(),
        params,
        id: number(1),
    }
}

fn error_parts(response: &RpcResponse) -> (i64, String) {
    match &response.outcome {
        RpcOutcome::Error { code, message } => (*code, message.clone()),
        RpcOutcome::Result(_) => panic!("expected an error"),
    }
}

#[test]
fn test_method_allowed_by_whitelist() {
    assert!(whitelist::is_method_allowed("eth_getBalance"));
    assert!(whitelist::is_method_allowed("debug_traceTransaction"));
    assert!(!whitelist::is_method_allowed("admin_addPeer"));
}

#[test]
fn test_error_format_for_disallowed_method() {
    let method = "admin_addPeer".to_string();
    let error = AppError::MethodNotAllowed(method.clone()).to_json_rpc_error(number(1));

    let (code, message) = error_parts(&error);
    assert_eq!(code, -32002);
    assert!(message.contains(&method));
}

#[test]
fn test_whitelist_check_in_config() {
    let config_with_whitelist = test_config(true, false);
    let config_without_whitelist = test_config(false, false);

    assert!(config_with_whitelist.security.enable_whitelist);
    assert!(!config_without_whitelist.security.enable_whitelist);
}

#[test]
fn test_read_only_mode_blocks_write_methods() {
    assert!(whitelist::is_write_method("eth_sendRawTransaction"));
    assert!(whitelist::is_write_method("personal_sign"));
    assert!(whitelist::is_write_method("admin_addPeer"));

    assert!(!whitelist::is_write_method("eth_getBalance"));
    assert!(!whitelist::is_write_method("eth_call"));
}

#[test]
fn test_error_format_for_read_only_mode() {
    let error = AppError::ReadOnlyMode.to_json_rpc_error(number(1));

    let (code, message) = error_parts(&error);
    assert_eq!(code, -32000);
    assert!(message.contains("Read-only mode is enabled"));
}

#[test]
fn test_read_only_mode_in_config() {
    let config_read_only = test_config(true, true);
    let config_read_write = test_config(true, false);

    assert!(config_read_only.security.is_read_only());
    assert!(!config_read_write.security.is_read_only());
}

#[test]
fn test_request_context_with_missing_params() {
    let context = RequestContext::new(&request("eth_gasPrice", vec![]));

    assert_eq!(context.method, "eth_gasPrice");
    assert_eq!(context.payload_info.params_summary, "empty");
    assert_eq!(context.payload_info.estimated_size, 0);
    assert_eq!(context.id, "1");
}

#[test]
fn test_request_context_with_populated_params() {
    let context = RequestContext::new(&request(
        "eth_getBalance",
        vec![
            text("0x407d73d8a49eeb85d32cf465507dd71d507100c1"),
            text("latest"),
        ],
    ));

    assert_eq!(context.method, "eth_getBalance");
    assert_eq!(
        context.payload_info.params_summary,
        "\"0x407d73d8a49eeb85d32cf465507dd71d507100c1\""
    );
}

#[test]
fn test_request_context_with_null_params() {
    // A request whose params are null has no positional parameters.
    let context = RequestContext::new(&request("eth_chainId", vec![]));

    assert_eq!(context.method, "eth_chainId");
    assert_eq!(context.payload_info.params_summary, "empty");
    assert_eq!(context.payload_info.estimated_size, 0);
}

#[test]
fn test_payload_info_extract_with_various_param_types() {
    let test_cases = vec![
        (
            "eth_sendRawTransaction",
            vec![text("0x1234567890abcdef")],
            8,
            "Hex string parameter",
        ),
        (
            "eth_getBalance",
            vec![
                text("0x407d73d8a49eeb85d32cf465507dd71d507100c1"),
                text("latest"),
            ],
            20,
            "Address parameter",
        ),
        ("eth_gasPrice", vec![], 0, "Empty params array"),
    ];

    for (method, params, expected_size, description) in test_cases {
        let payload_info = PayloadInfo::extract_from_request(&request(method, params));

        assert_eq!(
            payload_info.estimated_size, expected_size,
            "Failed for case: {description}"
        );

        if expected_size == 0 {
            assert_eq!(payload_info.params_summary, "empty");
        }
    }
}

#[test]
fn payload_info_of_short_and_other_parameters() {
    let short = PayloadInfo::extract_from_request(&request("m", vec![text("0")]));
    assert_eq!(short.estimated_size, 0);
    assert_eq!(short.params_summary, "\"0\"");
    let other = PayloadInfo::extract_from_request(&request("m", vec![number(1234)]));
    assert_eq!(other.estimated_size, 0);
    assert_eq!(other.params_summary, "1234");
}

#[test]
fn rpc_test_json_rpc_error_format() {
    let error_response = json_rpc_error(number(1), -32600, "Invalid Request");

    assert_eq!(error_response.jsonrpc, "2.0");
    assert_eq!(error_response.id, number(1));
    assert_eq!(
        error_parts(&error_response),
        (-32600, "Invalid Request".to_string())
    );
}

#[test]
fn error_test_json_rpc_error_format() {
    let error = AppError::RetryExhausted {
        attempts: 5,
        reason: "test".to_string(),
    };
    let response = error.to_json_rpc_error(text("test-id"));

    assert_eq!(response.jsonrpc, "2.0");
    assert_eq!(response.id, text("test-id"));
    assert_eq!(
        error_parts(&response),
        (-32015, "Retry exhausted after 5 attempts: test".to_string())
    );
}

#[test]
fn test_error_display() {
    let retry_error = AppError::RetryExhausted {
        attempts: 3,
        reason: "UTXO exhaustion".to_string(),
    };
    assert_eq!(
        retry_error.to_string(),
        "Retry exhausted after 3 attempts: UTXO exhaustion"
    );
}

#[test]
fn test_read_only_mode_error() {
    let error = AppError::ReadOnlyMode;
    assert!(matches!(error, AppError::ReadOnlyMode));

    let response = error.to_json_rpc_error(number(1));
    let (code, message) = error_parts(&response);
    assert_eq!(code, -32000);
    assert_eq!(message, "Read-only mode is enabled");
}

#[test]
fn every_application_error_has_a_code_and_a_message() {
    let cases = vec![
        (
            AppError::ConfigError("x".to_string()),
            -32000,
            "Configuration error: x",
        ),
        (
            AppError::InvalidTransactionFormat,
            -32001,
            "Invalid L2 transaction format",
        ),
        (
            AppError::ElCallError("x".to_string()),
            -32000,
            "IGRA EL Client call failed",
        ),
        (
            AppError::WalletCallError,
            -32005,
            "KASPA Wallet call failed",
        ),
        (
            AppError::MethodNotAllowed("x".to_string()),
            -32002,
            "RPC method not allowed: x",
        ),
        (
            AppError::InvalidPayload("x".to_string()),
            -32003,
            "Invalid IGRA payload: x",
        ),
        (
            AppError::SerializationError("x".to_string()),
            -32004,
            "Payload serialization error: x",
        ),
        (
            AppError::WalletError("x".to_string()),
            -32012,
            "Wallet error: x",
        ),
        (
            AppError::JsonRpcError(text("x")),
            -32000,
            "JSON-RPC error: \"x\"",
        ),
        (
            AppError::Internal("x".to_string()),
            -32000,
            "Internal error: x",
        ),
        (
            AppError::UtxoExhausted,
            -32014,
            "UTXO exhausted: no funds available to send",
        ),
    ];
    for (error, code, message) in cases {
        let response = error.to_json_rpc_error(JsonValue::Null);
        assert_eq!(response.id, JsonValue::Null);
        assert_eq!(error_parts(&response), (code, message.to_string()));
    }
    assert_eq!(
        AppError::MethodNotAllowed("x".to_string()).to_string(),
        "RPC method not allowed"
    );
    assert_eq!(
        AppError::InvalidPayload("x".to_string()).to_string(),
        "Invalid IGRA payload data: x"
    );
}

#[test]
fn conversion_errors_become_wallet_errors() {
    let user = AppError::from(KaspaWalletError::UserInputError("a".to_string()));
    assert_eq!(user.to_string(), "Wallet error: User input error: a");
    let server = AppError::from(KaspaWalletError::InternalServerError("b".to_string()));
    assert_eq!(server.to_string(), "Wallet error: Internal server error: b");
    assert_eq!(
        KaspaWalletError::UserInputError("a".to_string()).to_string(),
        "a"
    );
}

#[test]
fn whitelist_comes_before_read_only_mode() {
    let strict = SecurityConfig {
        enable_whitelist: true,
        read_only: true,
    };
    let refused = validate_request_authorization(&strict, &request("admin_addPeer", vec![]))
        .expect("refused");
    assert_eq!(
        error_parts(&refused),
        (
            -32002,
            "RPC method not allowed: admin_addPeer".to_string()
        )
    );

    let open = SecurityConfig {
        enable_whitelist: false,
        read_only: true,
    };
    let refused =
        validate_request_authorization(&open, &request("admin_addPeer", vec![])).expect("refused");
    assert_eq!(
        error_parts(&refused),
        (-32000, "Read-only mode is enabled".to_string())
    );
    assert_eq!(refused.id, number(1));

    assert!(validate_request_authorization(&open, &request("foo_bar", vec![])).is_none());
    assert!(validate_request_authorization(&strict, &request("eth_call", vec![])).is_none());
}

#[test]
fn read_only_mode_blocks_submissions_with_and_without_whitelist() {
    for enable_whitelist in [false, true] {
        let security = SecurityConfig {
            enable_whitelist,
            read_only: true,
        };
        let plan =
            process_single_request(&security, &request("eth_sendRawTransaction", vec![]));
        match plan {
            RequestPlan::Refuse(response) => assert_eq!(
                error_parts(&response),
                (-32000, "Read-only mode is enabled".to_string())
            ),
            RequestPlan::Handle(_) => panic!("submitted in read-only mode"),
        }
    }
}

#[test]
fn submissions_go_to_the_transaction_service() {
    let security = SecurityConfig::new();
    assert!(matches!(
        process_single_request(&security, &request("eth_sendRawTransaction", vec![])),
        RequestPlan::Handle(Service::Transaction)
    ));
    assert!(matches!(
        process_single_request(&security, &request("eth_chainId", vec![])),
        RequestPlan::Handle(Service::Proxy)
    ));
    assert_eq!(route_request_to_service("eth_sendRawTransactionX"), Service::Proxy);
    assert_eq!(route_request_to_service(""), Service::Proxy);
}

#[test]
fn subscription_methods_are_not_on_the_whitelist() {
    for method in ["eth_subscribe", "eth_unsubscribe"] {
        assert!(!whitelist::is_method_allowed(method));
        let request = RpcRequest {
            jsonrpc: "2.0".to_string(),
            method: method.to_string(),
            params: vec![],
            id: number(1),
        };
        match process_single_request(&SecurityConfig::with_whitelist(true), &request) {
            RequestPlan::Refuse(response) => assert_eq!(
                error_parts(&response),
                (-32002, format!("RPC method not allowed: {method}"))
            ),
            RequestPlan::Handle(service) => panic!("handled by {service:?}"),
        }
        assert!(matches!(
            process_single_request(&SecurityConfig::with_whitelist(false), &request),
            RequestPlan::Handle(Service::Proxy)
        ));
    }
}

#[test]
fn only_one_write_method_is_on_the_whitelist() {
    for unsupported in ["eth_sign", "eth_signTransaction", "eth_sendTransaction"] {
        assert!(!whitelist::is_method_allowed(unsupported));
    }
    for method in [
        "eth_sendRawTransaction",
        "eth_blockNumber",
        "net_version",
        "web3_sha3",
        "personal_sign",
        "admin_addPeer",
        "eth_sendTransaction",
        "",
    ] {
        let both = whitelist::is_method_allowed(method) && whitelist::is_write_method(method);
        assert_eq!(both, method == "eth_sendRawTransaction", "{method}");
    }
}

#[test]
fn empty_batches_get_a_single_error() {
    match handle_rpc(RpcEnvelope::Batch(vec![])) {
        EnvelopePlan::Refuse(response) => {
            assert_eq!(response.id, JsonValue::Null);
            assert_eq!(
                error_parts(&response),
                (-32600, "Invalid Request: empty batch".to_string())
            );
        }
        other => panic!("unexpected {other:?}"),
    }
    match handle_rpc(RpcEnvelope::Batch(vec![
        request("a", vec![]),
        request("b", vec![]),
    ])) {
        EnvelopePlan::Batch(requests) => {
            assert_eq!(requests.len(), 2);
            assert_eq!(requests[0].method, "a");
            assert_eq!(requests[1].method, "b");
        }
        other => panic!("unexpected {other:?}"),
    }
    assert!(matches!(
        handle_rpc(RpcEnvelope::Single(request("a", vec![]))),
        EnvelopePlan::Single(_)
    ));
}

#[test]
fn health_follows_the_execution_layer() {
    let request = block_number_request();
    assert_eq!(request.jsonrpc, "2.0");
    assert_eq!(request.method, "eth_blockNumber");
    assert!(request.params.is_empty());
    assert_eq!(request.id, JsonValue::Other("1".to_string()));

    let healthy = health_check(ElCallOutcome::Replied(ElReply {
        result: Some(text("0xa5b9")),
    }));
    assert_eq!(healthy.status, "healthy");
    assert_eq!(healthy.block_number, Some("0xa5b9".to_string()));

    let silent = health_check(ElCallOutcome::Replied(ElReply { result: None }));
    assert_eq!(silent.status, "unhealthy");
    assert_eq!(silent.block_number, None);

    let down = health_check(ElCallOutcome::Failed(AppError::ElCallError(String::new())));
    assert_eq!(down.status, "unhealthy");
}

#[test]
fn json_values_know_their_text() {
    assert_eq!(JsonValue::Null.to_string(), "null");
    assert_eq!(text("a\n").to_string(), "\"a\\n\"");
    assert_eq!(number(3).to_string(), "3");
    assert_eq!(text("a").as_str(), Some("a"));
    assert_eq!(number(3).as_str(), None);
    assert!(JsonValue::Null.is_null());
}
