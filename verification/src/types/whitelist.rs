//! The JSON-RPC methods that clients may call.

use crate::text;
use vstd::prelude::*;
use vstd::string::*;

verus! {

/// Whether `m` is one of the allowed `eth_` methods.
pub open spec fn is_eth_method(m: Seq<char>) -> bool {
    ||| m == "eth_accounts"@
    ||| m == "eth_blockNumber"@
    ||| m == "eth_call"@
    ||| m == "eth_chainId"@
    ||| m == "eth_coinbase"@
    ||| m == "eth_estimateGas"@
    ||| m == "eth_feeHistory"@
    ||| m == "eth_gasPrice"@
    ||| m == "eth_getBalance"@
    ||| m == "eth_getBlockByHash"@
    ||| m == "eth_getBlockByNumber"@
    ||| m == "eth_getBlockTransactionCountByHash"@
    ||| m == "eth_getBlockTransactionCountByNumber"@
    ||| m == "eth_getCode"@
    ||| m == "eth_getFilterChanges"@
    ||| m == "eth_getFilterLogs"@
    ||| m == "eth_getLogs"@
    ||| m == "eth_getStorageAt"@
    ||| m == "eth_getTransactionByBlockHashAndIndex"@
    ||| m == "eth_getTransactionByBlockNumberAndIndex"@
    ||| m == "eth_getTransactionByHash"@
    ||| m == "eth_getTransactionCount"@
    ||| m == "eth_getTransactionReceipt"@
    ||| m == "eth_getUncleByBlockHashAndIndex"@
    ||| m == "eth_getUncleByBlockNumberAndIndex"@
    ||| m == "eth_getUncleCountByBlockHash"@
    ||| m == "eth_getUncleCountByBlockNumber"@
    ||| m == "eth_hashrate"@
    ||| m == "eth_mining"@
    ||| m == "eth_newBlockFilter"@
    ||| m == "eth_newFilter"@
    ||| m == "eth_newPendingTransactionFilter"@
    ||| m == "eth_protocolVersion"@
    ||| m == "eth_sendRawTransaction"@
    ||| m == "eth_syncing"@
    ||| m == "eth_uninstallFilter"@
}

/// Whether `m` is one of the allowed methods of the other namespaces.
pub open spec fn is_other_method(m: Seq<char>) -> bool {
    ||| m == "debug_traceTransaction"@
    ||| m == "net_listening"@
    ||| m == "net_peerCount"@
    ||| m == "net_version"@
    ||| m == "web3_clientVersion"@
    ||| m == "web3_sha3"@
}

/// Whether the whitelist allows a method.
pub open spec fn allowed(method: Seq<char>) -> bool {
    is_eth_method(method) || is_other_method(method)
}

/// Whether a method changes the chain or the node: it submits a transaction, or
/// belongs to the `personal_` or the `admin_` namespace.
pub open spec fn writes(method: Seq<char>) -> bool {
    ||| method == "eth_sendRawTransaction"@
    ||| "personal_"@.is_prefix_of(method)
    ||| "admin_"@.is_prefix_of(method)
}

/// Whether a method is one of the allowed `eth_` methods.
fn eth_method(method: &String) -> (r: bool)
    ensures
        r == is_eth_method(method@),
{
    *method == String::from_str("eth_accounts")
        || *method == String::from_str("eth_blockNumber")
        || *method == String::from_str("eth_call")
        || *method == String::from_str("eth_chainId")
        || *method == String::from_str("eth_coinbase")
        || *method == String::from_str("eth_estimateGas")
        || *method == String::from_str("eth_feeHistory")
        || *method == String::from_str("eth_gasPrice")
        || *method == String::from_str("eth_getBalance")
        || *method == String::from_str("eth_getBlockByHash")
        || *method == String::from_str("eth_getBlockByNumber")
        || *method == String::from_str("eth_getBlockTransactionCountByHash")
        || *method == String::from_str("eth_getBlockTransactionCountByNumber")
        || *method == String::from_str("eth_getCode")
        || *method == String::from_str("eth_getFilterChanges")
        || *method == String::from_str("eth_getFilterLogs")
        || *method == String::from_str("eth_getLogs")
        || *method == String::from_str("eth_getStorageAt")
        || *method == String::from_str("eth_getTransactionByBlockHashAndIndex")
        || *method == String::from_str("eth_getTransactionByBlockNumberAndIndex")
        || *method == String::from_str("eth_getTransactionByHash")
        || *method == String::from_str("eth_getTransactionCount")
        || *method == String::from_str("eth_getTransactionReceipt")
        || *method == String::from_str("eth_getUncleByBlockHashAndIndex")
        || *method == String::from_str("eth_getUncleByBlockNumberAndIndex")
        || *method == String::from_str("eth_getUncleCountByBlockHash")
        || *method == String::from_str("eth_getUncleCountByBlockNumber")
        || *method == String::from_str("eth_hashrate")
        || *method == String::from_str("eth_mining")
        || *method == String::from_str("eth_newBlockFilter")
        || *method == String::from_str("eth_newFilter")
        || *method == String::from_str("eth_newPendingTransactionFilter")
        || *method == String::from_str("eth_protocolVersion")
        || *method == String::from_str("eth_sendRawTransaction")
        || *method == String::from_str("eth_syncing")
        || *method == String::from_str("eth_uninstallFilter")
}

/// Whether a method is one of the allowed methods of the other namespaces.
fn other_method(method: &String) -> (r: bool)
    ensures
        r == is_other_method(method@),
{
    *method == String::from_str("debug_traceTransaction")
        || *method == String::from_str("net_listening")
        || *method == String::from_str("net_peerCount")
        || *method == String::from_str("net_version")
        || *method == String::from_str("web3_clientVersion")
        || *method == String::from_str("web3_sha3")
}

/// Checks whether the whitelist allows an RPC method.
///
/// The list holds the standard methods that common providers support.
pub fn is_method_allowed(method: &str) -> (r: bool)
    ensures
        r == allowed(method@),
{
    let name = String::from_str(method);
    eth_method(&name) || other_method(&name)
}

/// Checks whether an RPC method is a write method.
pub fn is_write_method(method: &str) -> (r: bool)
    ensures
        r == writes(method@),
{
    text::text_eq(method, "eth_sendRawTransaction") || text::starts_with(method, "personal_")
        || text::starts_with(method, "admin_")
}

/// The one write method on the whitelist is the submission of a transaction.
pub proof fn whitelist_admits_one_write_method(method: Seq<char>)
    ensures
        allowed(method) && writes(method) <==> method == "eth_sendRawTransaction"@,
{
    reveal_strlit("personal_");
    reveal_strlit("admin_");
    if allowed(method) && "personal_"@.is_prefix_of(method) {
        assert(method.subrange(0, 9)[0] == method[0]);
        assert(method.subrange(0, 9)[1] == method[1]);
    }
    if allowed(method) && "admin_"@.is_prefix_of(method) {
        assert(method.subrange(0, 6)[0] == method[0]);
        assert(method.subrange(0, 6)[1] == method[1]);
    }
    reveal_strlit("eth_accounts");
    reveal_strlit("eth_blockNumber");
    reveal_strlit("eth_call");
    reveal_strlit("eth_chainId");
    reveal_strlit("eth_coinbase");
    reveal_strlit("eth_estimateGas");
    reveal_strlit("eth_feeHistory");
    reveal_strlit("eth_gasPrice");
    reveal_strlit("eth_getBalance");
    reveal_strlit("eth_getBlockByHash");
    reveal_strlit("eth_getBlockByNumber");
    reveal_strlit("eth_getBlockTransactionCountByHash");
    reveal_strlit("eth_getBlockTransactionCountByNumber");
    reveal_strlit("eth_getCode");
    reveal_strlit("eth_getFilterChanges");
    reveal_strlit("eth_getFilterLogs");
    reveal_strlit("eth_getLogs");
    reveal_strlit("eth_getStorageAt");
    reveal_strlit("eth_getTransactionByBlockHashAndIndex");
    reveal_strlit("eth_getTransactionByBlockNumberAndIndex");
    reveal_strlit("eth_getTransactionByHash");
    reveal_strlit("eth_getTransactionCount");
    reveal_strlit("eth_getTransactionReceipt");
    reveal_strlit("eth_getUncleByBlockHashAndIndex");
    reveal_strlit("eth_getUncleByBlockNumberAndIndex");
    reveal_strlit("eth_getUncleCountByBlockHash");
    reveal_strlit("eth_getUncleCountByBlockNumber");
    reveal_strlit("eth_hashrate");
    reveal_strlit("eth_mining");
    reveal_strlit("eth_newBlockFilter");
    reveal_strlit("eth_newFilter");
    reveal_strlit("eth_newPendingTransactionFilter");
    reveal_strlit("eth_protocolVersion");
    reveal_strlit("eth_sendRawTransaction");
    reveal_strlit("eth_syncing");
    reveal_strlit("eth_uninstallFilter");
    reveal_strlit("debug_traceTransaction");
    reveal_strlit("net_listening");
    reveal_strlit("net_peerCount");
    reveal_strlit("net_version");
    reveal_strlit("web3_clientVersion");
    reveal_strlit("web3_sha3");
}

/// The standard methods are admitted, each under its own name, and no other: those
/// that read the state, blocks, transactions, logs and fees, those that handle
/// filters, those that describe the node and the network, the trace of a
/// transaction, and the submission of one.
pub proof fn standard_methods_are_admitted(method: Seq<char>)
    ensures
        allowed(method) <==> {
            ||| method == "eth_accounts"@
            ||| method == "eth_blockNumber"@
            ||| method == "eth_call"@
            ||| method == "eth_chainId"@
            ||| method == "eth_coinbase"@
            ||| method == "eth_estimateGas"@
            ||| method == "eth_feeHistory"@
            ||| method == "eth_gasPrice"@
            ||| method == "eth_getBalance"@
            ||| method == "eth_getBlockByHash"@
            ||| method == "eth_getBlockByNumber"@
            ||| method == "eth_getBlockTransactionCountByHash"@
            ||| method == "eth_getBlockTransactionCountByNumber"@
            ||| method == "eth_getCode"@
            ||| method == "eth_getFilterChanges"@
            ||| method == "eth_getFilterLogs"@
            ||| method == "eth_getLogs"@
            ||| method == "eth_getStorageAt"@
            ||| method == "eth_getTransactionByBlockHashAndIndex"@
            ||| method == "eth_getTransactionByBlockNumberAndIndex"@
            ||| method == "eth_getTransactionByHash"@
            ||| method == "eth_getTransactionCount"@
            ||| method == "eth_getTransactionReceipt"@
            ||| method == "eth_getUncleByBlockHashAndIndex"@
            ||| method == "eth_getUncleByBlockNumberAndIndex"@
            ||| method == "eth_getUncleCountByBlockHash"@
            ||| method == "eth_getUncleCountByBlockNumber"@
            ||| method == "eth_hashrate"@
            ||| method == "eth_mining"@
            ||| method == "eth_newBlockFilter"@
            ||| method == "eth_newFilter"@
            ||| method == "eth_newPendingTransactionFilter"@
            ||| method == "eth_protocolVersion"@
            ||| method == "eth_sendRawTransaction"@
            ||| method == "eth_syncing"@
            ||| method == "eth_uninstallFilter"@
            ||| method == "debug_traceTransaction"@
            ||| method == "net_listening"@
            ||| method == "net_peerCount"@
            ||| method == "net_version"@
            ||| method == "web3_clientVersion"@
            ||| method == "web3_sha3"@
        },
{
}

/// A method that is admitted belongs to one of the public namespaces, and no
/// method by which a node would sign with keys of its own is admitted.
pub proof fn only_public_namespaces_are_admitted(method: Seq<char>)
    requires
        allowed(method),
    ensures
        "eth_"@.is_prefix_of(method) || "net_"@.is_prefix_of(method) || "web3_"@.is_prefix_of(
            method,
        ) || method == "debug_traceTransaction"@,
        !"eth_sign"@.is_prefix_of(method),
        method != "eth_sendTransaction"@,
        method != "eth_subscribe"@,
        method != "eth_unsubscribe"@,
{
    reveal_strlit("eth_");
    reveal_strlit("net_");
    reveal_strlit("web3_");
    reveal_strlit("eth_sign");
    reveal_strlit("eth_sendTransaction");
    reveal_strlit("eth_subscribe");
    reveal_strlit("eth_unsubscribe");
    reveal_strlit("eth_accounts");
    reveal_strlit("eth_blockNumber");
    reveal_strlit("eth_call");
    reveal_strlit("eth_chainId");
    reveal_strlit("eth_coinbase");
    reveal_strlit("eth_estimateGas");
    reveal_strlit("eth_feeHistory");
    reveal_strlit("eth_gasPrice");
    reveal_strlit("eth_getBalance");
    reveal_strlit("eth_getBlockByHash");
    reveal_strlit("eth_getBlockByNumber");
    reveal_strlit("eth_getBlockTransactionCountByHash");
    reveal_strlit("eth_getBlockTransactionCountByNumber");
    reveal_strlit("eth_getCode");
    reveal_strlit("eth_getFilterChanges");
    reveal_strlit("eth_getFilterLogs");
    reveal_strlit("eth_getLogs");
    reveal_strlit("eth_getStorageAt");
    reveal_strlit("eth_getTransactionByBlockHashAndIndex");
    reveal_strlit("eth_getTransactionByBlockNumberAndIndex");
    reveal_strlit("eth_getTransactionByHash");
    reveal_strlit("eth_getTransactionCount");
    reveal_strlit("eth_getTransactionReceipt");
    reveal_strlit("eth_getUncleByBlockHashAndIndex");
    reveal_strlit("eth_getUncleByBlockNumberAndIndex");
    reveal_strlit("eth_getUncleCountByBlockHash");
    reveal_strlit("eth_getUncleCountByBlockNumber");
    reveal_strlit("eth_hashrate");
    reveal_strlit("eth_mining");
    reveal_strlit("eth_newBlockFilter");
    reveal_strlit("eth_newFilter");
    reveal_strlit("eth_newPendingTransactionFilter");
    reveal_strlit("eth_protocolVersion");
    reveal_strlit("eth_sendRawTransaction");
    reveal_strlit("eth_syncing");
    reveal_strlit("eth_uninstallFilter");
    reveal_strlit("debug_traceTransaction");
    reveal_strlit("net_listening");
    reveal_strlit("net_peerCount");
    reveal_strlit("net_version");
    reveal_strlit("web3_clientVersion");
    reveal_strlit("web3_sha3");
    assert("eth_"@.len() == 4 && "net_"@.len() == 4 && "web3_"@.len() == 5);
    if is_eth_method(method) {
        assert(method.subrange(0, 4) =~= "eth_"@);
    } else if method != "debug_traceTransaction"@ {
        if method[0] == 'n' {
            assert(method.subrange(0, 4) =~= "net_"@);
        } else {
            assert(method.subrange(0, 5) =~= "web3_"@);
        }
    }
    if "eth_sign"@.is_prefix_of(method) {
        assert(method.subrange(0, 8)[0] == method[0]);
        assert(method.subrange(0, 8)[4] == method[4]);
        assert(method.subrange(0, 8)[5] == method[5]);
    }
}

/// Submitting a transaction writes, and so does every method of the `personal_`
/// and of the `admin_` namespace, whatever it is called; a method that starts
/// otherwise does not write unless it is that submission.
pub proof fn namespaces_decide_what_writes(method: Seq<char>, rest: Seq<char>)
    ensures
        writes("eth_sendRawTransaction"@),
        writes("personal_"@ + rest),
        writes("admin_"@ + rest),
        method.len() > 0 && method[0] != 'p' && method[0] != 'a' && method
            != "eth_sendRawTransaction"@ ==> !writes(method),
        method.len() < 6 ==> !writes(method),
{
    reveal_strlit("personal_");
    reveal_strlit("admin_");
    reveal_strlit("eth_sendRawTransaction");
    assert(("personal_"@ + rest).subrange(0, 9) =~= "personal_"@);
    assert(("admin_"@ + rest).subrange(0, 6) =~= "admin_"@);
    if method.len() > 0 && "personal_"@.is_prefix_of(method) {
        assert(method.subrange(0, 9)[0] == method[0]);
    }
    if method.len() > 0 && "admin_"@.is_prefix_of(method) {
        assert(method.subrange(0, 6)[0] == method[0]);
    }
}

} // verus!
