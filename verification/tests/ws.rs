use igra_rpc_provider::api::batch::BatchWindow;
use igra_rpc_provider::api::connection::{Connection, ConnectionAction, ConnectionEvent, Phase};
use igra_rpc_provider::api::rpc::{RequestPlan, Service};
use igra_rpc_provider::api::ws::{
    connect_error, handle_message, handle_ws_upgrade, is_subscription_method,
    process_subscription_request, process_ws_request_value, read_event, ConnectOutcome, Permits,
    WsAction, WsEvent, WsInput, MAX_INFLIGHT_REQUESTS, MAX_WS_CONNECTIONS,
};
use igra_rpc_provider::config::SecurityConfig;
use igra_rpc_provider::types::rpc::{
    JsonValue, RpcEnvelope, RpcOutcome, RpcRequest, RpcResponse,
};

fn request(method: &str) -> RpcRequest {
    RpcRequest {
        jsonrpc: "2.0".to_string(),
        method: method.to_string(),
        params: vec![],
        id: JsonValue::Other("5".to_string()),
    }
}

fn batch(count: usize) -> RpcEnvelope {
    RpcEnvelope::Batch((0..count).map(|_| request("eth_chainId")).collect())
}

fn error_parts(response: &RpcResponse) -> (i64, String) {
    match &response.outcome {
        RpcOutcome::Error { code, message } => (*code, message.clone()),
        RpcOutcome::Result(_) => panic!("expected an error"),
    }
}

fn reply(action: WsAction) -> RpcResponse {
    match action {
        WsAction::Reply(response) => response,
        other => panic!("expected a reply, got {other:?}"),
    }
}

/// Runs a batch whose requests all wait, then complete in the given order.
fn run_batch(count: usize, reserved: usize, order: &[usize]) -> (usize, usize, Vec<usize>) {
    let mut window: BatchWindow<usize> = BatchWindow::new(count, reserved);
    let mut peak = window.running();
    let mut started = window.started();
    for &index in order {
        assert!(window.is_running(index), "request {index} does not run");
        let (next, admitted) = window.complete(index, index);
        window = next;
        if let Some(next_index) = admitted {
            assert_eq!(next_index, started);
            started += 1;
        }
        peak = peak.max(window.running());
    }
    assert!(window.is_done());
    (peak, started, window.into_responses())
}

#[test]
fn batch_respects_reserved_capacity() {
    for (count, reserved) in [(1, 1), (63, 63), (64, 64), (65, 64), (129, 64), (65, 7)] {
        let mut semaphore = Permits::new(MAX_INFLIGHT_REQUESTS);
        assert!(semaphore.try_acquire_many(reserved));
        let window: BatchWindow<usize> = BatchWindow::new(count, reserved);
        assert_eq!(
            window.running(),
            reserved,
            "batch of {count} exceeded its reservation"
        );

        let order: Vec<usize> = (0..count).collect();
        let (peak, started, responses) = run_batch(count, reserved, &order);
        semaphore.release(reserved);

        assert!(peak <= reserved);
        assert_eq!(started, count);
        assert_eq!(semaphore.available(), MAX_INFLIGHT_REQUESTS);
        assert_eq!(responses, order);
    }
}

#[test]
fn batch_preserves_order_when_later_item_finishes_first() {
    let window: BatchWindow<&str> = BatchWindow::new(2, 2);
    assert_eq!(window.running(), 2);

    let (window, admitted) = window.complete(1, "second");
    assert_eq!(admitted, None);
    assert_eq!(window.running(), 1);
    assert!(!window.is_done());

    let (window, _) = window.complete(0, "first");
    assert!(window.is_done());
    assert_eq!(window.into_responses(), vec!["first", "second"]);
}

#[test]
fn batch_refills_window_when_a_completed_item_cannot_yet_be_yielded() {
    let window: BatchWindow<usize> = BatchWindow::new(4, 2);
    assert_eq!(window.started(), 2);

    let (window, admitted) = window.complete(1, 1);
    assert_eq!(admitted, Some(2));
    assert_eq!(window.started(), 3);
    assert_eq!(window.running(), 2);

    let (window, admitted) = window.complete(0, 0);
    assert_eq!(admitted, Some(3));
    let (window, _) = window.complete(3, 3);
    let (window, _) = window.complete(2, 2);
    assert_eq!(window.started(), 4);
    assert_eq!(window.running(), 0);
    assert_eq!(window.into_responses(), vec![0, 1, 2, 3]);
}

#[test]
fn responses_follow_the_requests_in_any_completion_order() {
    for order in [[0, 1, 2, 3, 4], [1, 2, 3, 4, 0], [1, 0, 3, 2, 4]] {
        let (peak, started, responses) = run_batch(5, 2, &order);
        assert_eq!(peak, 2);
        assert_eq!(started, 5);
        assert_eq!(responses, vec![0, 1, 2, 3, 4]);
    }
}

#[test]
fn unfinished_batches_hold_no_placeholders() {
    let window: BatchWindow<usize> = BatchWindow::new(4, 2);
    let (window, _) = window.complete(1, 10);
    assert!(!window.is_done());
    assert!(!window.is_running(1));
    assert!(!window.is_running(3));
    assert!(!window.is_running(9));
    assert_eq!(window.into_responses(), vec![10]);
}

#[test]
fn permits_are_taken_all_or_none() {
    let mut permits = Permits::new(3);
    assert!(permits.try_acquire_many(2));
    assert!(!permits.try_acquire_many(2));
    assert_eq!(permits.available(), 1);
    assert!(permits.try_acquire_many(1));
    assert!(!permits.try_acquire_many(1));
    assert!(permits.try_acquire_many(0));
    permits.release(3);
    assert_eq!(permits.available(), 3);
    assert!(!permits.try_acquire_many(usize::MAX));
}

#[test]
fn connections_are_limited() {
    let mut connections = Permits::new(MAX_WS_CONNECTIONS);
    for _ in 0..MAX_WS_CONNECTIONS {
        assert!(handle_ws_upgrade(&mut connections).is_none());
    }
    assert_eq!(
        handle_ws_upgrade(&mut connections),
        Some((503, "Too many WebSocket connections".to_string()))
    );
    connections.release(1);
    assert!(handle_ws_upgrade(&mut connections).is_none());
}

#[test]
fn unreachable_upstreams_are_reported() {
    assert!(connect_error(ConnectOutcome::Connected).is_none());
    let failed = connect_error(ConnectOutcome::Failed).expect("error");
    assert_eq!(failed.id, JsonValue::Null);
    assert_eq!(
        error_parts(&failed),
        (-32603, "Backend WebSocket connection failed".to_string())
    );
    let late = connect_error(ConnectOutcome::TimedOut).expect("error");
    assert_eq!(
        error_parts(&late),
        (-32603, "Backend WebSocket connection timeout".to_string())
    );
}

#[test]
fn frames_are_read() {
    match read_event(WsEvent::Text("a".to_string())) {
        WsInput::Message(text) => assert_eq!(text, "a"),
        other => panic!("unexpected {other:?}"),
    }
    match read_event(WsEvent::Binary("é".as_bytes().to_vec())) {
        WsInput::Message(text) => assert_eq!(text, "é"),
        other => panic!("unexpected {other:?}"),
    }
    assert!(matches!(
        read_event(WsEvent::Binary(vec![0xff])),
        WsInput::Skip
    ));
    assert!(matches!(read_event(WsEvent::Control), WsInput::Skip));
    assert!(matches!(read_event(WsEvent::Close), WsInput::Disconnect));
    assert!(matches!(read_event(WsEvent::Ended), WsInput::Disconnect));
    assert!(matches!(read_event(WsEvent::Idle), WsInput::Disconnect));
}

#[test]
fn messages_that_do_not_parse_are_answered() {
    let mut inflight = Permits::new(1);
    let response = reply(handle_message(Err("eof".to_string()), &mut inflight));
    assert_eq!(response.id, JsonValue::Null);
    assert_eq!(
        error_parts(&response),
        (-32700, "Parse error: eof".to_string())
    );
    assert_eq!(inflight.available(), 1);
}

#[test]
fn busy_connections_refuse_requests_under_their_id() {
    let mut inflight = Permits::new(1);
    let first = handle_message(Ok(RpcEnvelope::Single(request("eth_call"))), &mut inflight);
    assert!(matches!(first, WsAction::Process(_)));
    assert_eq!(inflight.available(), 0);

    let response = reply(handle_message(
        Ok(RpcEnvelope::Single(request("eth_call"))),
        &mut inflight,
    ));
    assert_eq!(response.id, JsonValue::Other("5".to_string()));
    assert_eq!(
        error_parts(&response),
        (
            -32005,
            "Server busy, too many in-flight requests".to_string()
        )
    );

    let subscription = handle_message(
        Ok(RpcEnvelope::Single(request("eth_subscribe"))),
        &mut inflight,
    );
    assert!(matches!(subscription, WsAction::Subscribe(_)));
}

#[test]
fn batches_reserve_permits() {
    let mut inflight = Permits::new(MAX_INFLIGHT_REQUESTS);
    match handle_message(Ok(batch(3)), &mut inflight) {
        WsAction::ProcessBatch { requests, permits } => {
            assert_eq!(requests.len(), 3);
            assert_eq!(permits, 3);
        }
        other => panic!("unexpected {other:?}"),
    }
    assert_eq!(inflight.available(), 61);

    let response = reply(handle_message(Ok(batch(62)), &mut inflight));
    assert_eq!(response.id, JsonValue::Null);
    assert_eq!(error_parts(&response).0, -32005);
    assert_eq!(inflight.available(), 61);

    let empty = reply(handle_message(Ok(batch(0)), &mut inflight));
    assert_eq!(
        error_parts(&empty),
        (-32600, "Invalid Request: empty batch".to_string())
    );
}

#[test]
fn idle_connections_accept_batches_of_any_length() {
    for count in [1, 64, 65, 1000] {
        let mut inflight = Permits::new(MAX_INFLIGHT_REQUESTS);
        match handle_message(Ok(batch(count)), &mut inflight) {
            WsAction::ProcessBatch { permits, .. } => {
                assert_eq!(permits, count.min(MAX_INFLIGHT_REQUESTS));
                assert_eq!(inflight.available(), MAX_INFLIGHT_REQUESTS - permits);
            }
            other => panic!("unexpected {other:?}"),
        }
    }
}

#[test]
fn subscriptions_are_refused_in_batches() {
    assert!(is_subscription_method("eth_subscribe"));
    assert!(is_subscription_method("eth_unsubscribe"));
    assert!(!is_subscription_method("eth_subscription"));

    let security = SecurityConfig::with_whitelist(false);
    match process_ws_request_value(&security, &request("eth_subscribe")) {
        RequestPlan::Refuse(response) => {
            assert_eq!(response.id, JsonValue::Other("5".to_string()));
            assert_eq!(
                error_parts(&response),
                (
                    -32600,
                    "Subscription requests in batch are not supported; send eth_subscribe as a single request"
                        .to_string()
                )
            );
        }
        RequestPlan::Handle(_) => panic!("subscription in a batch"),
    }
    assert!(matches!(
        process_ws_request_value(&security, &request("eth_call")),
        RequestPlan::Handle(Service::Proxy)
    ));
}

#[test]
fn single_subscriptions_are_checked_before_they_are_forwarded() {
    let open = SecurityConfig::with_whitelist(false);
    assert!(process_subscription_request(&open, &request("eth_subscribe")).is_none());
    let strict = SecurityConfig::with_whitelist(true);
    for method in ["eth_subscribe", "eth_unsubscribe"] {
        assert!(process_subscription_request(&strict, &request(method)).is_none());
    }
    let refused =
        process_subscription_request(&strict, &request("admin_subscribe")).expect("not on the list");
    assert_eq!(
        error_parts(&refused),
        (-32002, "RPC method not allowed: admin_subscribe".to_string())
    );
}

fn opened() -> Connection {
    let security = SecurityConfig::with_whitelist(false);
    let (connection, action) = Connection::new().step(
        &security,
        ConnectionEvent::Connected(ConnectOutcome::Connected),
    );
    assert!(matches!(action, ConnectionAction::Read));
    connection
}

fn parsed(
    connection: Connection,
    security: &SecurityConfig,
    envelope: RpcEnvelope,
) -> (Connection, ConnectionAction) {
    let read = WsEvent::Text("m".to_string());
    let (connection, action) = connection.step(security, ConnectionEvent::Read(read));
    assert!(matches!(action, ConnectionAction::Parse(_)));
    assert_eq!(connection.phase(), Phase::Parsing);
    connection.step(security, ConnectionEvent::Parsed(Ok(envelope)))
}

#[test]
fn connections_close_where_the_upstream_is_out_of_reach() {
    let security = SecurityConfig::new();
    let (connection, action) = Connection::new().step(
        &security,
        ConnectionEvent::Connected(ConnectOutcome::TimedOut),
    );
    assert_eq!(connection.phase(), Phase::Closed);
    match action {
        ConnectionAction::RefuseAndClose(error) => assert_eq!(
            error_parts(&error),
            (-32603, "Backend WebSocket connection timeout".to_string())
        ),
        other => panic!("unexpected {other:?}"),
    }
}

#[test]
fn connections_process_requests_until_permits_run_out() {
    let security = SecurityConfig::with_whitelist(false);
    let mut connection = opened();
    for _ in 0..MAX_INFLIGHT_REQUESTS {
        let (next, action) = parsed(
            connection,
            &security,
            RpcEnvelope::Single(request("eth_call")),
        );
        assert!(matches!(action, ConnectionAction::Process(_)));
        connection = next;
    }
    let (connection, action) = parsed(
        connection,
        &security,
        RpcEnvelope::Single(request("eth_call")),
    );
    match action {
        ConnectionAction::Reply(error) => assert_eq!(error_parts(&error).0, -32005),
        other => panic!("unexpected {other:?}"),
    }
    let (connection, _) = connection.step(&security, ConnectionEvent::Replied(true));
    let (_, action) = parsed(
        connection.answered(2),
        &security,
        RpcEnvelope::Batch(vec![request("a"), request("b")]),
    );
    assert!(matches!(
        action,
        ConnectionAction::ProcessBatch { permits: 2, .. }
    ));
}

#[test]
fn connections_relay_subscriptions() {
    let open = SecurityConfig::with_whitelist(false);
    let subscription = || RpcEnvelope::Single(request("eth_subscribe"));
    let (connection, action) = parsed(opened(), &open, subscription());
    assert!(matches!(action, ConnectionAction::Forward(_)));
    assert_eq!(connection.phase(), Phase::Forwarding);
    let (connection, action) = connection.step(&open, ConnectionEvent::Forwarded(false));
    assert!(matches!(action, ConnectionAction::Close));
    assert_eq!(connection.phase(), Phase::Closed);

    let mut strict = SecurityConfig::with_whitelist(true);
    strict.read_only = true;
    for security in [SecurityConfig::new(), strict] {
        for method in ["eth_subscribe", "eth_unsubscribe"] {
            let (connection, action) =
                parsed(opened(), &security, RpcEnvelope::Single(request(method)));
            match action {
                ConnectionAction::Forward(forwarded) => assert_eq!(forwarded.method, method),
                other => panic!("unexpected {other:?}"),
            }
            assert_eq!(connection.phase(), Phase::Forwarding);
        }
    }
}

#[test]
fn connections_read_on_or_close() {
    let security = SecurityConfig::new();
    let (connection, action) = opened().step(&security, ConnectionEvent::Read(WsEvent::Control));
    assert!(matches!(action, ConnectionAction::Read));
    let (connection, action) =
        connection.step(&security, ConnectionEvent::Read(WsEvent::Binary(vec![0xff])));
    assert!(matches!(action, ConnectionAction::Read));
    let (connection, action) = connection.step(&security, ConnectionEvent::Read(WsEvent::Idle));
    assert!(matches!(action, ConnectionAction::Close));
    assert_eq!(connection.phase(), Phase::Closed);
}
