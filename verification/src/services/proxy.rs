//! Forwarding of requests to the execution layer.

#[allow(unused_imports)]
use crate::config::gas::GasConfig;
use crate::error::AppError;
use crate::services::gas_price;
use crate::services::gas_price::GasPriceService;
use crate::text;
use crate::types::rpc::{ElReply, JsonValue, RpcRequest, RpcResponse};
use vstd::prelude::*;
use vstd::string::*;

verus! {

/// What became of a request that was to be forwarded.
#[derive(Debug)]
pub enum ElCallOutcome {
    /// The request could not be serialized, for this reason.
    NotSerialized(String),
    /// The call failed.
    Failed(AppError),
    /// The execution layer replied.
    Replied(ElReply),
}

/// What the client is answered.
#[derive(Debug)]
pub enum ProxyAnswer {
    /// The reply of the execution layer, with this result.
    PassOn(ElReply),
    /// An error of the proxy itself.
    Error(RpcResponse),
}

/// Whether `r` is the answer to a request for `method` under `id`.
pub open spec fn proxy_answer(
    method: Seq<char>,
    id: JsonValue,
    outcome: ElCallOutcome,
    floor: nat,
    r: ProxyAnswer,
) -> bool {
    match outcome {
        ElCallOutcome::NotSerialized(e) => r matches ProxyAnswer::Error(response)
            && response.is_error(id, -32700, "Serialization error: "@ + e@),
        ElCallOutcome::Failed(e) => r matches ProxyAnswer::Error(response) && response.is_error(
            id,
            -32000,
            "Request failed: "@ + e.message(),
        ),
        ElCallOutcome::Replied(reply) => match reply.result {
            Some(JsonValue::String(price)) if method == "eth_gasPrice"@ => r matches
                ProxyAnswer::PassOn(passed) && passed.result matches Some(JsonValue::String(s))
                && s@ == gas_price::floored(price@, floor),
            _ => r == ProxyAnswer::PassOn(reply),
        },
    }
}

/// Forwards requests to the execution layer and floors gas prices on the way
/// back.
#[derive(Debug)]
pub struct ProxyService {
    /// Where requests are forwarded to.
    pub el_url: String,
    /// The gas price rules.
    pub gas_price_service: GasPriceService,
}

impl ProxyService {
    /// Creates the service.
    pub fn new(el_url: String, gas_price_service: GasPriceService) -> (r: Self)
        ensures
            r.el_url == el_url,
            r.gas_price_service == gas_price_service,
    {
        ProxyService { el_url, gas_price_service }
    }

    /// Decides what a client is answered, from what became of its request.
    ///
    /// The reply of the execution layer is passed on as it is, except that the
    /// price in a reply to `eth_gasPrice` is floored.
    pub fn forward_to_el(&self, req: &RpcRequest, outcome: ElCallOutcome) -> (r: ProxyAnswer)
        ensures
            proxy_answer(
                req.method@,
                req.id,
                outcome,
                self.gas_price_service.config.min_wei(),
                r,
            ),
    {
        match outcome {
            ElCallOutcome::NotSerialized(e) => ProxyAnswer::Error(
                RpcResponse::error(
                    req.id.clone(),
                    -32700,
                    text::concat2("Serialization error: ", e.as_str()),
                ),
            ),
            ElCallOutcome::Failed(e) => ProxyAnswer::Error(
                RpcResponse::error(
                    req.id.clone(),
                    -32000,
                    text::concat2("Request failed: ", e.to_string().as_str()),
                ),
            ),
            ElCallOutcome::Replied(reply) => {
                let mut final_response = reply;
                if text::text_eq(req.method.as_str(), "eth_gasPrice") {
                    self.gas_price_service.floor_gas_price_value(&mut final_response);
                }
                ProxyAnswer::PassOn(final_response)
            },
        }
    }
}

/// Replies to any method but `eth_gasPrice` reach the client as they came.
pub proof fn other_replies_are_untouched(
    method: Seq<char>,
    id: JsonValue,
    reply: ElReply,
    floor: nat,
    r: ProxyAnswer,
)
    requires
        method != "eth_gasPrice"@,
        proxy_answer(method, id, ElCallOutcome::Replied(reply), floor, r),
    ensures
        r == ProxyAnswer::PassOn(reply),
{
}

/// A client that asks for the gas price is told the larger of the price in the
/// reply and the floor. A price that reaches the floor is passed on as it is
/// spelled, and so is a text that spells no price.
pub proof fn clients_are_told_the_larger_of_price_and_floor(
    id: JsonValue,
    reply: ElReply,
    config: GasConfig,
    r: ProxyAnswer,
)
    requires
        reply.result matches Some(JsonValue::String(_)),
        proxy_answer(
            "eth_gasPrice"@,
            id,
            ElCallOutcome::Replied(reply),
            config.min_wei(),
            r,
        ),
    ensures
        ({
            let price = reply.result->0->String_0@;
            &&& r matches ProxyAnswer::PassOn(passed)
            &&& passed.result matches Some(JsonValue::String(told))
            &&& match gas_price::price_of(price) {
                Some(amount) => {
                    &&& amount >= config.min_wei() ==> told@ == price
                    &&& amount >= config.min_wei() ==> gas_price::price_of(told@) == Some(amount)
                    &&& amount < config.min_wei() ==> gas_price::price_of(told@) == Some(
                        config.min_wei(),
                    )
                },
                None => told@ == price,
            }
        }),
{
    let price = reply.result->0->String_0@;
    gas_price::floored_prices_reach_the_floor(price, config);
    gas_price::floor_text_spells_the_floor(config);
}

/// A reply of the execution layer is always passed on, and a result that is no
/// text stays as it is even for `eth_gasPrice`. Where there is no reply the
/// client gets an error under the identifier of its request.
pub proof fn replies_are_passed_on_and_failures_reported(
    method: Seq<char>,
    id: JsonValue,
    outcome: ElCallOutcome,
    floor: nat,
    r: ProxyAnswer,
)
    requires
        proxy_answer(method, id, outcome, floor, r),
    ensures
        r is PassOn <==> outcome is Replied,
        outcome matches ElCallOutcome::Replied(reply) ==> !(reply.result matches Some(
            JsonValue::String(_),
        )) ==> r == ProxyAnswer::PassOn(reply),
        r matches ProxyAnswer::Error(e) ==> e.id == id && e.jsonrpc@ == "2.0"@
            && e.outcome is Error,
        outcome matches ElCallOutcome::Failed(error) ==> r->Error_0.outcome->message@
            == "Request failed: "@ + error.message(),
{
}

} // verus!
