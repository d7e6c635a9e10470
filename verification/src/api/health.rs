//! The health endpoint.

use crate::services::proxy::ElCallOutcome;
use crate::types::rpc::{JsonValue, RpcRequest};
use vstd::prelude::*;
use vstd::string::*;

verus! {

/// What the health endpoint reports.
#[derive(Debug, PartialEq, Eq)]
pub struct HealthReport {
    /// "healthy" or "unhealthy".
    pub status: String,
    /// The number of the latest block, where the service is healthy.
    pub block_number: Option<String>,
}

/// The request by which the execution layer is asked for the number of the
/// latest block.
pub fn block_number_request() -> (r: RpcRequest)
    ensures
        r.jsonrpc@ == "2.0"@,
        r.method@ == "eth_blockNumber"@,
        r.params@.len() == 0,
        r.id matches JsonValue::Other(s) && s@ == "1"@,
{
    RpcRequest {
        jsonrpc: String::from_str("2.0"),
        method: String::from_str("eth_blockNumber"),
        params: Vec::new(),
        id: JsonValue::Other(String::from_str("1")),
    }
}

/// Whether `r` is the report on what became of the question for a block number.
pub open spec fn reports_health(outcome: ElCallOutcome, r: HealthReport) -> bool {
    match outcome {
        ElCallOutcome::Replied(reply) if (reply.result matches Some(JsonValue::String(_))) => {
            &&& r.status@ == "healthy"@
            &&& r.block_number == Some(reply.result->0->String_0)
        },
        _ => r.status@ == "unhealthy"@ && r.block_number is None,
    }
}

/// Reports on the reply of the execution layer to `eth_blockNumber`: the service
/// is healthy exactly where the reply carries a block number.
pub fn health_check(outcome: ElCallOutcome) -> (r: HealthReport)
    ensures
        reports_health(outcome, r),
{
    match outcome {
        ElCallOutcome::Replied(reply) => match reply.result {
            Some(JsonValue::String(number)) => HealthReport {
                status: String::from_str("healthy"),
                block_number: Some(number),
            },
            _ => HealthReport { status: String::from_str("unhealthy"), block_number: None },
        },
        _ => HealthReport { status: String::from_str("unhealthy"), block_number: None },
    }
}

/// The service counts as healthy exactly where the execution layer named a block
/// number, and then reports that number.
pub proof fn health_is_a_block_number(outcome: ElCallOutcome, r: HealthReport)
    requires
        reports_health(outcome, r),
    ensures
        r.status@ == "healthy"@ <==> r.block_number is Some,
        r.status@ == "healthy"@ || r.status@ == "unhealthy"@,
        r.block_number is Some <==> (outcome matches ElCallOutcome::Replied(reply)
            && reply.result matches Some(JsonValue::String(_))),
        r.block_number matches Some(number) ==> outcome->Replied_0.result == Some(
            JsonValue::String(number),
        ),
{
    reveal_strlit("healthy");
    reveal_strlit("unhealthy");
    assert("healthy"@.len() != "unhealthy"@.len());
}

} // verus!
