//! WebSocket connections: what each message of a client or of the upstream
//! leads to.

use crate::api::rpc;
use crate::config::security::SecurityConfig;
use crate::outside;
use crate::text;
use crate::types::rpc::{JsonValue, RpcEnvelope, RpcRequest, RpcResponse};
use vstd::prelude::*;
use vstd::string::*;
#[allow(unused_imports)]
use vstd::utf8::*;

verus! {

/// Maximum concurrent WebSocket connections.
pub const MAX_WS_CONNECTIONS: usize = 1024;

/// Maximum concurrent in-flight requests per WebSocket connection.
pub const MAX_INFLIGHT_REQUESTS: usize = 64;

/// Seconds to connect to the upstream WebSocket.
pub const UPSTREAM_CONNECT_TIMEOUT_SECS: u64 = 10;

/// Seconds without a message after which a connection is closed.
pub const WS_IDLE_TIMEOUT_SECS: u64 = 300;

/// Seconds to flush what is still to be written when a connection closes.
pub const WRITER_SHUTDOWN_TIMEOUT_SECS: u64 = 5;

/// Number of outgoing messages that may wait for a client.
pub const CLIENT_SEND_BUFFER: usize = 256;

/// A bounded number of permits, of which some are held.
#[derive(Debug)]
pub struct Permits {
    limit: usize,
    held: usize,
}

impl Permits {
    /// Number of permits that there are.
    pub closed spec fn limit_view(self) -> nat {
        self.limit as nat
    }

    /// Number of permits that are held.
    pub closed spec fn held_view(self) -> nat {
        self.held as nat
    }

    /// No more permits are held than there are.
    #[verifier::type_invariant]
    closed spec fn within_limit(self) -> bool {
        self.held <= self.limit
    }

    /// Creates the given number of permits, none of them held.
    pub fn new(limit: usize) -> (r: Self)
        ensures
            r.limit_view() == limit,
            r.held_view() == 0,
    {
        Permits { limit, held: 0 }
    }

    /// Number of permits that are not held.
    pub fn available(&self) -> (r: usize)
        ensures
            r == self.limit_view() - self.held_view(),
    {
        proof {
            use_type_invariant(self);
        }
        self.limit - self.held
    }

    /// Takes `count` permits, all of them or none.
    pub fn try_acquire_many(&mut self, count: usize) -> (r: bool)
        ensures
            final(self).limit_view() == old(self).limit_view(),
            final(self).held_view() <= final(self).limit_view(),
            r == (old(self).held_view() + count <= old(self).limit_view()),
            final(self).held_view() == old(self).held_view() + if r {
                count as int
            } else {
                0
            },
    {
        proof {
            use_type_invariant(&*self);
        }
        if count <= self.limit - self.held {
            self.held = self.held + count;
            true
        } else {
            false
        }
    }

    /// Gives `count` held permits back.
    pub fn release(&mut self, count: usize)
        requires
            count <= old(self).held_view(),
        ensures
            final(self).limit_view() == old(self).limit_view(),
            final(self).held_view() == old(self).held_view() - count,
    {
        proof {
            use_type_invariant(&*self);
        }
        self.held = self.held - count;
    }
}

/// Takes a permit for a new connection; gives the HTTP status and text of the
/// refusal where none is free.
pub fn handle_ws_upgrade(connections: &mut Permits) -> (r: Option<(u16, String)>)
    ensures
        final(connections).limit_view() == old(connections).limit_view(),
        if old(connections).held_view() < old(connections).limit_view() {
            &&& r is None
            &&& final(connections).held_view() == old(connections).held_view() + 1
        } else {
            &&& r matches Some((status, text))
            &&& status == 503
            &&& text@ == "Too many WebSocket connections"@
            &&& final(connections).held_view() == old(connections).held_view()
        },
{
    if connections.try_acquire_many(1) {
        None
    } else {
        Some((503, String::from_str("Too many WebSocket connections")))
    }
}

/// Whether a method is a subscription method.
pub open spec fn subscribes(method: Seq<char>) -> bool {
    method == "eth_subscribe"@ || method == "eth_unsubscribe"@
}

/// Checks whether a method is a subscription method.
pub fn is_subscription_method(method: &str) -> (r: bool)
    ensures
        r == subscribes(method@),
{
    text::text_eq(method, "eth_subscribe") || text::text_eq(method, "eth_unsubscribe")
}

/// How the attempt to connect to the upstream ended.
#[derive(Debug, Clone, Copy, PartialEq, Eq, Structural)]
pub enum ConnectOutcome {
    Connected,
    Failed,
    TimedOut,
}

/// The error that a client gets before its connection is closed, where the
/// upstream could not be reached.
pub fn connect_error(outcome: ConnectOutcome) -> (r: Option<RpcResponse>)
    ensures
        match outcome {
            ConnectOutcome::Connected => r is None,
            ConnectOutcome::Failed => r matches Some(e) && e.is_error(
                JsonValue::Null,
                -32603,
                "Backend WebSocket connection failed"@,
            ),
            ConnectOutcome::TimedOut => r matches Some(e) && e.is_error(
                JsonValue::Null,
                -32603,
                "Backend WebSocket connection timeout"@,
            ),
        },
{
    match outcome {
        ConnectOutcome::Connected => None,
        ConnectOutcome::Failed => Some(
            rpc::json_rpc_error(JsonValue::Null, -32603, "Backend WebSocket connection failed"),
        ),
        ConnectOutcome::TimedOut => Some(
            rpc::json_rpc_error(JsonValue::Null, -32603, "Backend WebSocket connection timeout"),
        ),
    }
}

/// What is read from a WebSocket.
#[derive(Debug)]
pub enum WsEvent {
    /// A text frame.
    Text(String),
    /// A binary frame.
    Binary(Vec<u8>),
    /// A frame that carries no message: a ping or a pong.
    Control,
    /// A close frame.
    Close,
    /// The stream ended or could not be read.
    Ended,
    /// Nothing came for too long.
    Idle,
}

/// What is done with what was read.
#[derive(Debug)]
pub enum WsInput {
    /// Handle this message.
    Message(String),
    /// Read on.
    Skip,
    /// Close the connection.
    Disconnect,
}

/// Decides what is done with what was read from a client or from the upstream:
/// binary frames count as text where they are valid UTF-8.
pub fn read_event(event: WsEvent) -> (r: WsInput)
    ensures
        match event {
            WsEvent::Text(t) => r == WsInput::Message(t),
            WsEvent::Binary(b) => if valid_utf8(b@) {
                r matches WsInput::Message(t) && t@ == decode_utf8(b@)
            } else {
                r is Skip
            },
            WsEvent::Control => r is Skip,
            WsEvent::Close | WsEvent::Ended | WsEvent::Idle => r is Disconnect,
        },
{
    match event {
        WsEvent::Text(t) => WsInput::Message(t),
        WsEvent::Binary(b) => match outside::text_from_utf8(b) {
            Some(t) => WsInput::Message(t),
            None => WsInput::Skip,
        },
        WsEvent::Control => WsInput::Skip,
        WsEvent::Close => WsInput::Disconnect,
        WsEvent::Ended => WsInput::Disconnect,
        WsEvent::Idle => WsInput::Disconnect,
    }
}

/// What is done with a message of a client.
#[derive(Debug)]
pub enum WsAction {
    /// Answer at once.
    Reply(RpcResponse),
    /// Handle a subscription request before the next message is read.
    Subscribe(RpcRequest),
    /// Process a request concurrently; it holds one permit until it is answered.
    Process(RpcRequest),
    /// Process a batch concurrently; it holds these permits until it is answered.
    ProcessBatch { requests: Vec<RpcRequest>, permits: usize },
}

/// Number of permits that an action holds.
pub open spec fn permits_of(action: WsAction) -> nat {
    match action {
        WsAction::Process(_) => 1,
        WsAction::ProcessBatch { permits, .. } => permits as nat,
        _ => 0,
    }
}

/// Number of permits that a batch reserves.
pub open spec fn batch_permits(requests: nat) -> nat {
    if requests < MAX_INFLIGHT_REQUESTS {
        requests
    } else {
        MAX_INFLIGHT_REQUESTS as nat
    }
}

/// Whether `r` is what is done with a message, given the permits that are free.
pub open spec fn message_action(
    parsed: Result<RpcEnvelope, String>,
    free: int,
    r: WsAction,
) -> bool {
    match parsed {
        Err(e) => r matches WsAction::Reply(response) && response.is_error(
            JsonValue::Null,
            -32700,
            "Parse error: "@ + e@,
        ),
        Ok(RpcEnvelope::Single(req)) => if subscribes(req.method@) {
            r == WsAction::Subscribe(req)
        } else if 1 <= free {
            r == WsAction::Process(req)
        } else {
            r matches WsAction::Reply(response) && response.is_error(
                req.id,
                -32005,
                "Server busy, too many in-flight requests"@,
            )
        },
        Ok(RpcEnvelope::Batch(requests)) => if requests@.len() == 0 {
            r matches WsAction::Reply(response) && response.is_error(
                JsonValue::Null,
                -32600,
                "Invalid Request: empty batch"@,
            )
        } else if batch_permits(requests@.len()) <= free {
            r matches WsAction::ProcessBatch { requests: rs, permits } && rs == requests && permits
                == batch_permits(requests@.len())
        } else {
            r matches WsAction::Reply(response) && response.is_error(
                JsonValue::Null,
                -32005,
                "Server busy, too many in-flight requests"@,
            )
        },
    }
}

/// Decides what is done with a message of a client, from what it parsed to, and
/// takes the permits that this needs.
///
/// A message that would have to wait for a permit is answered with an error, so
/// that the connection is never blocked.
pub fn handle_message(parsed: Result<RpcEnvelope, String>, inflight: &mut Permits) -> (r: WsAction)
    ensures
        message_action(parsed, old(inflight).limit_view() - old(inflight).held_view(), r),
        final(inflight).limit_view() == old(inflight).limit_view(),
        final(inflight).held_view() == old(inflight).held_view() + permits_of(r),
{
    let envelope = match parsed {
        Ok(envelope) => envelope,
        Err(e) => {
            let message = text::concat2("Parse error: ", e.as_str());
            return WsAction::Reply(
                rpc::json_rpc_error(JsonValue::Null, -32700, message.as_str()),
            );
        },
    };
    match envelope {
        RpcEnvelope::Single(req) => {
            if is_subscription_method(req.method.as_str()) {
                return WsAction::Subscribe(req);
            }
            if inflight.try_acquire_many(1) {
                WsAction::Process(req)
            } else {
                WsAction::Reply(
                    rpc::json_rpc_error(
                        req.id.clone(),
                        -32005,
                        "Server busy, too many in-flight requests",
                    ),
                )
            }
        },
        RpcEnvelope::Batch(requests) => {
            if requests.len() == 0 {
                return WsAction::Reply(
                    rpc::json_rpc_error(JsonValue::Null, -32600, "Invalid Request: empty batch"),
                );
            }
            let permits: usize = if requests.len() < MAX_INFLIGHT_REQUESTS {
                requests.len()
            } else {
                MAX_INFLIGHT_REQUESTS
            };
            if inflight.try_acquire_many(permits) {
                WsAction::ProcessBatch { requests, permits }
            } else {
                WsAction::Reply(
                    rpc::json_rpc_error(
                        JsonValue::Null,
                        -32005,
                        "Server busy, too many in-flight requests",
                    ),
                )
            }
        },
    }
}

/// Why a request for a subscription is refused; `None` where it is forwarded.
///
/// The subscription methods are not on the whitelist, since they make sense on a
/// WebSocket only; there they are admitted. Any other method is held to the
/// rules for all requests.
pub open spec fn subscription_refusal(security: SecurityConfig, method: Seq<char>) -> Option<
    (int, Seq<char>),
> {
    if subscribes(method) {
        None
    } else {
        rpc::refusal(security, method)
    }
}

/// Decides what is done with a subscription request: it is refused with an error
/// or, where there is none, forwarded to the upstream.
pub fn process_subscription_request(security: &SecurityConfig, req: &RpcRequest) -> (r: Option<
    RpcResponse,
>)
    ensures
        match subscription_refusal(*security, req.method@) {
            Some((code, message)) => r matches Some(e) && e.is_error(req.id, code, message),
            None => r is None,
        },
{
    if is_subscription_method(req.method.as_str()) {
        None
    } else {
        rpc::validate_request_authorization(security, req)
    }
}

/// Whether `r` is what is done with a request of a batch.
pub open spec fn batch_request_plan(
    security: SecurityConfig,
    req: RpcRequest,
    r: rpc::RequestPlan,
) -> bool {
    if subscribes(req.method@) {
        r matches rpc::RequestPlan::Refuse(e) && e.is_error(
            req.id,
            -32600,
            "Subscription requests in batch are not supported; send eth_subscribe as a single request"@,
        )
    } else {
        rpc::request_plan(security, req, r)
    }
}

/// Decides what is done with a request of a batch.
///
/// Subscriptions are refused there: their events arrive on their own and cannot
/// be collected into the answer to a batch.
pub fn process_ws_request_value(security: &SecurityConfig, req: &RpcRequest) -> (r:
    rpc::RequestPlan)
    ensures
        batch_request_plan(*security, *req, r),
{
    if is_subscription_method(req.method.as_str()) {
        return rpc::RequestPlan::Refuse(
            rpc::json_rpc_error(
                req.id.clone(),
                -32600,
                "Subscription requests in batch are not supported; send eth_subscribe as a single request",
            ),
        );
    }
    rpc::process_single_request(security, req)
}

/// A batch on an idle connection is never refused for lack of permits, however
/// long it is.
pub proof fn idle_connections_take_any_batch(requests: Vec<RpcRequest>, r: WsAction)
    requires
        requests@.len() > 0,
        message_action(
            Ok(RpcEnvelope::Batch(requests)),
            MAX_INFLIGHT_REQUESTS as int,
            r,
        ),
    ensures
        r is ProcessBatch,
        0 < permits_of(r) <= MAX_INFLIGHT_REQUESTS,
        permits_of(r) <= requests@.len(),
{
}

/// An action never holds more permits than were free, and one that answers at
/// once holds none.
pub proof fn actions_hold_free_permits_only(
    parsed: Result<RpcEnvelope, String>,
    free: nat,
    r: WsAction,
)
    requires
        message_action(parsed, free as int, r),
    ensures
        permits_of(r) <= free,
        r is Reply || r is Subscribe ==> permits_of(r) == 0,
        r is Process || r is ProcessBatch ==> permits_of(r) > 0,
{
}

/// A batch that is taken is taken whole: the requests to process are the
/// requests of the batch, all of them and in their order, however many permits
/// are reserved. It is taken exactly where it is not empty and the permits
/// suffice: one for each request, and 64 for a longer batch.
pub proof fn batches_are_taken_whole(requests: Vec<RpcRequest>, free: int, r: WsAction)
    requires
        message_action(Ok(RpcEnvelope::Batch(requests)), free, r),
    ensures
        r matches WsAction::ProcessBatch { requests: taken, permits } ==> {
            &&& taken@.len() == requests@.len()
            &&& forall|i: int| 0 <= i < requests@.len() ==> taken@[i] == #[trigger] requests@[i]
            &&& requests@.len() <= 64 ==> permits == requests@.len()
            &&& requests@.len() > 64 ==> permits == 64
        },
        r is ProcessBatch <==> requests@.len() > 0 && (free >= 64 || free >= requests@.len()),
        r is ProcessBatch || r is Reply,
        r matches WsAction::Reply(e) ==> e.id is Null && e.outcome is Error,
{
}

/// A single request is taken as it came: a subscription request to be relayed,
/// any other one to be processed where a permit is free. It is otherwise
/// answered under its own identifier.
pub proof fn single_requests_are_taken_as_they_came(req: RpcRequest, free: int, r: WsAction)
    requires
        message_action(Ok(RpcEnvelope::Single(req)), free, r),
    ensures
        r is Subscribe <==> req.method@ == "eth_subscribe"@ || req.method@ == "eth_unsubscribe"@,
        r is Process <==> !(r is Subscribe) && free >= 1,
        r matches WsAction::Subscribe(taken) ==> taken == req,
        r matches WsAction::Process(taken) ==> taken == req,
        r matches WsAction::Reply(e) ==> e.id == req.id && e.outcome is Error,
        !(r is ProcessBatch),
{
}

/// A request of a batch that is no subscription is treated as it would be on its
/// own, by the same rules and for the same service. In particular a transaction
/// goes through the base layer wherever the provider is not read-only, and what
/// whitelist and read-only mode refuse is refused in a batch as well.
pub proof fn batched_requests_are_treated_like_single_ones(
    security: SecurityConfig,
    req: RpcRequest,
    r: rpc::RequestPlan,
)
    requires
        req.method@ != "eth_subscribe"@,
        req.method@ != "eth_unsubscribe"@,
        batch_request_plan(security, req, r),
    ensures
        rpc::request_plan(security, req, r),
        r == rpc::RequestPlan::Handle(rpc::Service::Transaction) <==> req.method@
            == "eth_sendRawTransaction"@ && !security.read_only,
        security.enable_whitelist && !crate::types::whitelist::allowed(req.method@) ==> r is Refuse,
        security.read_only && crate::types::whitelist::writes(req.method@) ==> r is Refuse,
        !security.enable_whitelist && !security.read_only ==> r is Handle,
{
    rpc::transaction_service_sees_submissions_only(security, req, r);
    rpc::two_rules_refuse_requests(security, req, r);
}

/// A subscription request in a batch is refused under its own identifier, in
/// every security mode.
pub proof fn batched_subscriptions_are_refused(
    security: SecurityConfig,
    req: RpcRequest,
    r: rpc::RequestPlan,
)
    requires
        req.method@ == "eth_subscribe"@ || req.method@ == "eth_unsubscribe"@,
        batch_request_plan(security, req, r),
    ensures
        r matches rpc::RequestPlan::Refuse(e) && e.id == req.id && e.outcome is Error
            && e.outcome->code == -32600,
{
}

/// A subscription request is never refused on its own; any other request is
/// refused here exactly where it would be refused elsewhere.
pub proof fn subscriptions_are_admitted_on_a_websocket(
    security: SecurityConfig,
    method: Seq<char>,
)
    ensures
        subscription_refusal(security, "eth_subscribe"@) is None,
        subscription_refusal(security, "eth_unsubscribe"@) is None,
        method != "eth_subscribe"@ && method != "eth_unsubscribe"@ ==> subscription_refusal(
            security,
            method,
        ) == rpc::refusal(security, method),
{
}

} // verus!
