//! Admission and routing of JSON-RPC requests.

use crate::config::security::SecurityConfig;
use crate::error::AppError;
use crate::text;
use crate::types::rpc::{RpcEnvelope, RpcRequest, RpcResponse, JsonValue};
use crate::types::whitelist;
use vstd::prelude::*;
use vstd::string::*;
#[allow(unused_imports)]
use vstd::utf8::*;

verus! {

/// Builds a JSON-RPC error.
pub fn json_rpc_error(id: JsonValue, code: i32, message: &str) -> (r: RpcResponse)
    ensures
        r.is_error(id, code as int, message@),
{
    RpcResponse::error(id, code as i64, String::from_str(message))
}

/// What is known of the first parameter of a request.
#[derive(Debug, PartialEq, Eq)]
pub struct PayloadInfo {
    /// Its JSON text, or "empty".
    pub params_summary: String,
    /// The number of bytes that it spells, where it is hexadecimal text.
    pub estimated_size: usize,
}

impl PayloadInfo {
    /// Whether this describes the parameters of a request.
    pub open spec fn describes(self, req: RpcRequest) -> bool {
        &&& self.params_summary@ == if req.params@.len() > 0 {
            req.params@[0].text()
        } else {
            "empty"@
        }
        &&& self.estimated_size == if req.params@.len() > 0 && req.params@[0] is String {
            let half = encode_utf8(req.raw_param()).len() / 2;
            if half > 0 {
                half - 1
            } else {
                0
            }
        } else {
            0
        }
    }

    /// Describes the parameters of a request.
    pub fn extract_from_request(req: &RpcRequest) -> (r: Self)
        ensures
            r.describes(*req),
    {
        if req.params.len() == 0 {
            return PayloadInfo { params_summary: String::from_str("empty"), estimated_size: 0 };
        }
        let params_summary = req.params[0].to_string();
        let estimated_size: usize = match req.params[0].as_str() {
            Some(s) => {
                let half: usize = s.as_bytes().len() / 2;
                if half > 0 {
                    half - 1
                } else {
                    0
                }
            },
            None => 0,
        };
        PayloadInfo { params_summary, estimated_size }
    }
}

/// What is known of a request while it is processed.
#[derive(Debug, PartialEq, Eq)]
pub struct RequestContext {
    pub method: String,
    pub id: String,
    pub payload_info: PayloadInfo,
}

impl RequestContext {
    /// Collects what is known of a request.
    pub fn new(req: &RpcRequest) -> (r: Self)
        ensures
            r.method@ == req.method@,
            r.id@ == req.id.text(),
            r.payload_info.describes(*req),
    {
        RequestContext {
            method: req.method.clone(),
            id: req.id.to_string(),
            payload_info: PayloadInfo::extract_from_request(req),
        }
    }
}

/// The error with which a request is refused; `None` where it is admitted. The
/// whitelist comes first, then the read-only mode.
pub open spec fn refusal(security: SecurityConfig, method: Seq<char>) -> Option<
    (int, Seq<char>),
> {
    if security.enable_whitelist && !whitelist::allowed(method) {
        Some((-32002, "RPC method not allowed: "@ + method))
    } else if security.read_only && whitelist::writes(method) {
        Some((-32000, "Read-only mode is enabled"@))
    } else {
        None
    }
}

/// Checks a request against the whitelist, if that is enabled, and against the
/// read-only mode; gives the error response for a refused one.
pub fn validate_request_authorization(security: &SecurityConfig, req: &RpcRequest) -> (r: Option<
    RpcResponse,
>)
    ensures
        match refusal(*security, req.method@) {
            Some((code, message)) => r matches Some(e) && e.is_error(req.id, code, message),
            None => r is None,
        },
{
    if security.enable_whitelist && !whitelist::is_method_allowed(req.method.as_str()) {
        return Some(
            AppError::MethodNotAllowed(req.method.clone()).to_json_rpc_error(req.id.clone()),
        );
    }
    if security.is_read_only() && whitelist::is_write_method(req.method.as_str()) {
        return Some(AppError::ReadOnlyMode.to_json_rpc_error(req.id.clone()));
    }
    None
}

/// The service that handles a request.
#[derive(Debug, Clone, Copy, PartialEq, Eq, Structural)]
pub enum Service {
    /// Transactions are submitted through the base layer.
    Transaction,
    /// All else is forwarded to the execution layer.
    Proxy,
}

/// The service that a method is routed to.
pub open spec fn route(method: Seq<char>) -> Service {
    if method == "eth_sendRawTransaction"@ {
        Service::Transaction
    } else {
        Service::Proxy
    }
}

/// Routes a request to the service for its method.
pub fn route_request_to_service(method: &str) -> (r: Service)
    ensures
        r == route(method@),
{
    if text::text_eq(method, "eth_sendRawTransaction") {
        Service::Transaction
    } else {
        Service::Proxy
    }
}

/// What is done with a single request.
#[derive(Debug)]
pub enum RequestPlan {
    /// It is refused with this response.
    Refuse(RpcResponse),
    /// It is handed to a service.
    Handle(Service),
}

/// Whether `r` is what is done with a request.
pub open spec fn request_plan(security: SecurityConfig, req: RpcRequest, r: RequestPlan) -> bool {
    match refusal(security, req.method@) {
        Some((code, message)) => r matches RequestPlan::Refuse(e) && e.is_error(
            req.id,
            code,
            message,
        ),
        None => r == RequestPlan::Handle(route(req.method@)),
    }
}

/// Decides what is done with a single request.
pub fn process_single_request(security: &SecurityConfig, req: &RpcRequest) -> (r: RequestPlan)
    ensures
        request_plan(*security, *req, r),
{
    match validate_request_authorization(security, req) {
        Some(error_response) => RequestPlan::Refuse(error_response),
        None => RequestPlan::Handle(route_request_to_service(req.method.as_str())),
    }
}

/// What is done with the body of an HTTP request.
#[derive(Debug)]
pub enum EnvelopePlan {
    /// Answer this request.
    Single(RpcRequest),
    /// Answer these requests, in their order.
    Batch(Vec<RpcRequest>),
    /// Answer with this error.
    Refuse(RpcResponse),
}

/// Whether `r` is what is done with the body of an HTTP request.
pub open spec fn envelope_plan(envelope: RpcEnvelope, r: EnvelopePlan) -> bool {
    match envelope {
        RpcEnvelope::Single(req) => r == EnvelopePlan::Single(req),
        RpcEnvelope::Batch(requests) => if requests@.len() == 0 {
            r matches EnvelopePlan::Refuse(e) && e.is_error(
                JsonValue::Null,
                -32600,
                "Invalid Request: empty batch"@,
            )
        } else {
            r == EnvelopePlan::Batch(requests)
        },
    }
}

/// Decides what is done with the body of an HTTP request: an empty batch is an
/// invalid request and gets a single error.
pub fn handle_rpc(envelope: RpcEnvelope) -> (r: EnvelopePlan)
    ensures
        envelope_plan(envelope, r),
{
    match envelope {
        RpcEnvelope::Single(req) => EnvelopePlan::Single(req),
        RpcEnvelope::Batch(requests) => {
            if requests.len() == 0 {
                EnvelopePlan::Refuse(
                    json_rpc_error(JsonValue::Null, -32600, "Invalid Request: empty batch"),
                )
            } else {
                EnvelopePlan::Batch(requests)
            }
        },
    }
}

/// In read-only mode no write method reaches a service, whatever the whitelist
/// says; in particular no transaction is submitted.
pub proof fn read_only_blocks_every_write(security: SecurityConfig, req: RpcRequest, r: RequestPlan)
    requires
        security.read_only,
        whitelist::writes(req.method@),
        request_plan(security, req, r),
    ensures
        r is Refuse,
{
}

/// With the whitelist on, only listed methods reach a service.
pub proof fn whitelist_blocks_other_methods(
    security: SecurityConfig,
    req: RpcRequest,
    r: RequestPlan,
)
    requires
        security.enable_whitelist,
        request_plan(security, req, r),
    ensures
        r is Handle ==> whitelist::allowed(req.method@),
{
}

/// The transaction service sees transaction submissions and nothing else, and
/// never in read-only mode.
pub proof fn transaction_service_sees_submissions_only(
    security: SecurityConfig,
    req: RpcRequest,
    r: RequestPlan,
)
    requires
        request_plan(security, req, r),
    ensures
        r == RequestPlan::Handle(Service::Transaction) <==> req.method@
            == "eth_sendRawTransaction"@ && !security.read_only,
{
}

/// A listed method that does not write is handed to the proxy service, in every
/// security mode.
pub proof fn listed_reads_reach_the_proxy(
    security: SecurityConfig,
    req: RpcRequest,
    r: RequestPlan,
)
    requires
        whitelist::allowed(req.method@),
        req.method@ != "eth_sendRawTransaction"@,
        request_plan(security, req, r),
    ensures
        r == RequestPlan::Handle(Service::Proxy),
{
    whitelist::whitelist_admits_one_write_method(req.method@);
}

/// A request is refused for two reasons and no other: the whitelist is on and
/// does not list its method, or the provider is read-only and its method writes.
/// The refusal carries the identifier of the request, and the whitelist is
/// looked at first.
pub proof fn two_rules_refuse_requests(security: SecurityConfig, req: RpcRequest, r: RequestPlan)
    requires
        request_plan(security, req, r),
    ensures
        r is Refuse <==> (security.enable_whitelist && !whitelist::allowed(req.method@)) || (
        security.read_only && whitelist::writes(req.method@)),
        r matches RequestPlan::Refuse(e) ==> {
            &&& e.jsonrpc@ == "2.0"@
            &&& e.id == req.id
            &&& e.outcome is Error
            &&& security.enable_whitelist && !whitelist::allowed(req.method@) ==> {
                &&& e.outcome->code == -32002
                &&& e.outcome->message@ == "RPC method not allowed: "@ + req.method@
            }
            &&& !security.enable_whitelist || whitelist::allowed(req.method@) ==> {
                &&& e.outcome->code == -32000
                &&& e.outcome->message@ == "Read-only mode is enabled"@
            }
        },
        r is Handle && req.method@ != "eth_sendRawTransaction"@ ==> r == RequestPlan::Handle(
            Service::Proxy,
        ),
{
}

/// Without whitelist and read-only mode every request is handled.
pub proof fn open_providers_handle_everything(
    security: SecurityConfig,
    req: RpcRequest,
    r: RequestPlan,
)
    requires
        !security.enable_whitelist,
        !security.read_only,
        request_plan(security, req, r),
    ensures
        r is Handle,
{
}

/// The size that is estimated for a raw transaction is the number of bytes that
/// its hexadecimal text spells.
pub proof fn estimated_size_counts_the_bytes(info: PayloadInfo, req: RpcRequest, bytes: Seq<u8>)
    requires
        info.describes(req),
        req.params@.len() > 0,
        req.params@[0] is String,
        req.params@[0]->String_0@ == "0x"@ + text::hex_text(bytes),
    ensures
        info.estimated_size == bytes.len(),
{
    reveal_strlit("0x");
    text::hex_text_round_trip(bytes);
    text::encode_utf8_concat("0x"@, text::hex_text(bytes));
    assert(is_ascii_chars("0x"@));
    is_ascii_chars_encode_utf8("0x"@);
}

/// The body of an HTTP request is answered whole: a single request as it is, and
/// a batch with all its requests in their order, however many there are. Only an
/// empty batch is refused.
pub proof fn bodies_are_answered_whole(envelope: RpcEnvelope, r: EnvelopePlan)
    requires
        envelope_plan(envelope, r),
    ensures
        envelope matches RpcEnvelope::Single(req) ==> r == EnvelopePlan::Single(req),
        envelope matches RpcEnvelope::Batch(requests) ==> {
            &&& r is Refuse <==> requests@.len() == 0
            &&& r is Batch <==> requests@.len() > 0
            &&& r matches EnvelopePlan::Batch(taken) ==> taken@.len() == requests@.len()
                && forall|i: int|
                0 <= i < requests@.len() ==> taken@[i] == #[trigger] requests@[i]
        },
        r matches EnvelopePlan::Refuse(e) ==> e.id is Null && e.outcome is Error
            && e.outcome->code == -32600,
{
}

/// What is noted of a request is its first parameter as JSON, or that there is
/// none; a parameter that is no text has no size.
pub proof fn the_first_parameter_is_noted(info: PayloadInfo, req: RpcRequest)
    requires
        info.describes(req),
    ensures
        req.params@.len() == 0 ==> info.params_summary@ == "empty"@ && info.estimated_size == 0,
        req.params@.len() > 0 ==> info.params_summary@ == req.params@[0].text(),
        req.params@.len() > 0 && !(req.params@[0] is String) ==> info.estimated_size == 0,
{
}

} // verus!
