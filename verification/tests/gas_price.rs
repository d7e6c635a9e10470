use igra_rpc_provider::config::GasConfig;
use igra_rpc_provider::error::AppError;
use igra_rpc_provider::services::gas_price::{FeeLookup, GasPriceService};
use igra_rpc_provider::services::proxy::{ElCallOutcome, ProxyAnswer, ProxyService};
use igra_rpc_provider::types::rpc::{
    Block, ElReply, JsonRpcResponse, JsonValue, RpcOutcome, RpcRequest,
};
use igra_rpc_provider::types::u256::U256;

const GWEI: u128 = 1_000_000_000;

fn create_test_service(min_base_fee_gwei: u64) -> GasPriceService {
    GasPriceService::new(GasConfig { min_base_fee_gwei })
}

fn reply(price: &str) -> ElReply {
    ElReply {
        result: Some(JsonValue::String(price.to_string())),
    }
}

fn price_in(reply: &ElReply) -> String {
    match &reply.result {
        Some(JsonValue::String(s)) => s.clone(),
        other => panic!("result should be string, got {other:?}"),
    }
}

fn amount_in(reply: &ElReply) -> u128 {
    let price = price_in(reply);
    u128::from_str_radix(price.trim_start_matches("0x"), 16).expect("Failed to parse hex")
}

fn floor_of(service: &GasPriceService, price: &str) -> String {
    let mut response = reply(price);
    service.floor_gas_price_value(&mut response);
    price_in(&response)
}

fn block(base_fee_per_gas: Option<U256>) -> JsonRpcResponse<Block> {
    JsonRpcResponse {
        jsonrpc: "2.0".to_string(),
        id: JsonValue::Other("1".to_string()),
        result: Block {
            base_fee_per_gas,
            number: Some(U256::from_u128(0x1b4)),
            hash: Some("0x1234567890abcdef".to_string()),
        },
    }
}

fn request(method: &str) -> RpcRequest {
    RpcRequest {
        jsonrpc: "2.0".to_string(),
        method: method.to_string(),
        params: vec![],
        id: JsonValue::Other("1".to_string()),
    }
}

fn assert_asks_for_the_latest_block(request: &RpcRequest) {
    assert_eq!(request.jsonrpc, "2.0");
    assert_eq!(request.method, "eth_getBlockByNumber");
    assert_eq!(
        request.params,
        vec![
            JsonValue::String("latest".to_string()),
            JsonValue::Other("false".to_string()),
        ]
    );
    assert_eq!(request.id, JsonValue::Other("1".to_string()));
}

#[test]
fn test_gas_price_below_floor_is_floored() {
    let service = create_test_service(100);
    let mut response = reply(&format!("0x{:x}", 50 * GWEI));
    service.floor_gas_price_value(&mut response);

    assert_eq!(amount_in(&response), 100 * GWEI);
}

#[test]
fn test_gas_price_above_floor_is_unchanged() {
    let service = create_test_service(100);
    let mut response = reply(&format!("0x{:x}", 150 * GWEI));
    service.floor_gas_price_value(&mut response);

    assert_eq!(amount_in(&response), 150 * GWEI);
}

#[test]
fn test_gas_price_equal_to_floor_is_unchanged() {
    let service = create_test_service(100);
    let mut response = reply(&format!("0x{:x}", 100 * GWEI));
    service.floor_gas_price_value(&mut response);

    assert_eq!(amount_in(&response), 100 * GWEI);
}

#[test]
fn test_invalid_hex_price_is_unchanged() {
    let service = create_test_service(100);
    let mut response = reply("0xnot-a-hex-value");
    service.floor_gas_price_value(&mut response);
    assert_eq!(price_in(&response), "0xnot-a-hex-value");
}

#[test]
fn prices_of_every_form_are_floored() {
    let service = create_test_service(100);
    assert_eq!(floor_of(&service, "0x1"), "0x174876e800");
    assert_eq!(floor_of(&service, "0x0x1"), "0x174876e800");
    assert_eq!(floor_of(&service, "0X1"), "0x174876e800");
    assert_eq!(floor_of(&service, "0X0x1"), "0x174876e800");
    assert_eq!(floor_of(&service, "1"), "0x174876e800");
    assert_eq!(floor_of(&service, "0x174876E800"), "0x174876E800");
    assert_eq!(floor_of(&service, "0X0x"), "0x174876e800");
    assert_eq!(floor_of(&service, "0x"), "0x");
    assert_eq!(floor_of(&service, ""), "");
    let largest = format!("0x{}", "f".repeat(64));
    assert_eq!(floor_of(&service, &largest), largest);
    let padded_low = format!("0x{}1", "0".repeat(63));
    assert_eq!(floor_of(&service, &padded_low), "0x174876e800");
    let too_long = format!("0x{}1", "0".repeat(64));
    assert_eq!(floor_of(&service, &too_long), too_long);
}

#[test]
fn flooring_twice_is_flooring_once() {
    let service = create_test_service(u64::MAX);
    for price in ["0x0", "0x1", "zz", "0xffffffffffffffffffffffffffff"] {
        let once = floor_of(&service, price);
        assert_eq!(floor_of(&service, &once), once);
    }
}

#[test]
fn results_that_are_no_text_stay_as_they_are() {
    let service = create_test_service(100);
    for result in [
        None,
        Some(JsonValue::Null),
        Some(JsonValue::Other("1".to_string())),
    ] {
        let mut response = ElReply {
            result: result.clone(),
        };
        service.floor_gas_price_value(&mut response);
        assert_eq!(response.result, result);
    }
}

#[test]
fn test_get_effective_base_fee_returns_higher_network_fee() {
    let mut service = create_test_service(100);
    let high_network_base_fee = U256::from_u128(150 * GWEI);

    assert!(matches!(
        service.get_effective_base_fee(0),
        FeeLookup::Fetch
    ));
    assert_asks_for_the_latest_block(&GasPriceService::latest_block_request());
    let fetched = service.fetch_network_base_fee(Ok(block(Some(high_network_base_fee))));
    let result = service.base_fee_fetched(fetched, 0);

    assert!(result.is_ok());
    assert_eq!(
        result.expect("Should get effective base fee"),
        high_network_base_fee
    );
}

#[test]
fn test_get_effective_base_fee_returns_floor_when_network_lower() {
    let mut service = create_test_service(100);
    let min_floor_wei = U256::from_u128(100 * GWEI);
    let low_network_base_fee = U256::from_u128(50 * GWEI);

    assert_asks_for_the_latest_block(&GasPriceService::latest_block_request());
    let fetched = service.fetch_network_base_fee(Ok(block(Some(low_network_base_fee))));
    let result = service.base_fee_fetched(fetched, 0);

    assert!(result.is_ok());
    assert_eq!(
        result.expect("Should get effective base fee"),
        min_floor_wei
    );
}

#[test]
fn test_get_effective_base_fee_fails_without_base_fee_field() {
    let mut service = create_test_service(100);

    assert_asks_for_the_latest_block(&GasPriceService::latest_block_request());
    let fetched = service.fetch_network_base_fee(Ok(block(None)));
    let result = service.base_fee_fetched(fetched, 0);

    assert!(result.is_err());
    assert!(result
        .expect_err("Should fail without baseFeePerGas")
        .to_string()
        .contains("EIP-1559 not active"));
    assert!(service.cache.is_none());
}

#[test]
fn replies_that_do_not_parse_are_internal_errors() {
    let service = create_test_service(100);
    let error = service
        .fetch_network_base_fee(Err("bad".to_string()))
        .expect_err("no block");
    assert_eq!(
        error.to_string(),
        "Internal error: Failed to parse block response: bad"
    );
}

#[test]
fn fetched_fees_are_used_for_one_block() {
    let mut service = create_test_service(1);
    let fee = U256::from_u128(7 * GWEI);
    service
        .base_fee_fetched(Ok(fee), 5_000)
        .expect("effective fee");
    for now in [5_000, 5_999] {
        match service.get_effective_base_fee(now) {
            FeeLookup::Cached(cached) => assert_eq!(cached, fee),
            FeeLookup::Fetch => panic!("stale after {now}"),
        }
    }
    assert!(matches!(
        service.get_effective_base_fee(6_000),
        FeeLookup::Fetch
    ));

    let failed = service.base_fee_fetched(Err(AppError::Internal("x".to_string())), 6_000);
    assert!(failed.is_err());
    assert!(matches!(
        service.get_effective_base_fee(5_500),
        FeeLookup::Cached(_)
    ));
}

#[test]
fn test_eth_gasprice_is_intercepted_and_floored() {
    let service = ProxyService::new("http://el".to_string(), create_test_service(100));
    let answer = service.forward_to_el(
        &request("eth_gasPrice"),
        ElCallOutcome::Replied(reply("0x1")),
    );
    let expected_floored_price = 100 * 1_000_000_000u128;
    let expected_hex = format!("0x{:x}", expected_floored_price);
    match answer {
        ProxyAnswer::PassOn(passed) => assert_eq!(price_in(&passed), expected_hex),
        ProxyAnswer::Error(e) => panic!("unexpected {e:?}"),
    }
}

#[test]
fn test_other_methods_are_not_intercepted() {
    let service = ProxyService::new("http://el".to_string(), create_test_service(100));
    let answer = service.forward_to_el(
        &request("eth_blockNumber"),
        ElCallOutcome::Replied(reply("0x123abc")),
    );
    match answer {
        ProxyAnswer::PassOn(passed) => assert_eq!(price_in(&passed), "0x123abc"),
        ProxyAnswer::Error(e) => panic!("unexpected {e:?}"),
    }
}

#[test]
fn failed_forwards_are_answered_with_errors() {
    let service = ProxyService::new("http://el".to_string(), create_test_service(100));
    let cases = vec![
        (
            ElCallOutcome::NotSerialized("odd".to_string()),
            -32700,
            "Serialization error: odd",
        ),
        (
            ElCallOutcome::Failed(AppError::ElCallError("refused".to_string())),
            -32000,
            "Request failed: IGRA EL Client call failed",
        ),
    ];
    for (outcome, expected_code, expected_message) in cases {
        match service.forward_to_el(&request("eth_gasPrice"), outcome) {
            ProxyAnswer::Error(response) => {
                assert_eq!(response.id, JsonValue::Other("1".to_string()));
                assert_eq!(
                    response.outcome,
                    RpcOutcome::Error {
                        code: expected_code,
                        message: expected_message.to_string()
                    }
                );
            }
            ProxyAnswer::PassOn(_) => panic!("passed on"),
        }
    }
}
