//! JSON-RPC messages and the base-layer payload.

use crate::outside;
use crate::types::u256::U256;
use vstd::prelude::*;
use vstd::string::*;

verus! {

/// Number of nonce bytes at the end of a base-layer payload.
pub const NONCE_SIZE: usize = 4;

/// A JSON value, told apart as far as the rules of this library look into it.
#[derive(Debug, PartialEq, Eq)]
pub enum JsonValue {
    /// The value `null`.
    Null,
    /// A string, held by its characters.
    String(String),
    /// Any other value, held by its compact JSON text.
    Other(String),
}

impl Clone for JsonValue {
    fn clone(&self) -> (r: Self)
        ensures
            r == *self,
    {
        match self {
            JsonValue::Null => JsonValue::Null,
            JsonValue::String(s) => JsonValue::String(s.clone()),
            JsonValue::Other(s) => JsonValue::Other(s.clone()),
        }
    }
}

impl JsonValue {
    /// The compact JSON text of the value.
    pub open spec fn text(self) -> Seq<char> {
        match self {
            JsonValue::Null => "null"@,
            JsonValue::String(s) => outside::json_string_literal(s@),
            JsonValue::Other(s) => s@,
        }
    }

    /// Whether the value is `null`.
    pub fn is_null(&self) -> (r: bool)
        ensures
            r == (self is Null),
    {
        match self {
            JsonValue::Null => true,
            _ => false,
        }
    }

    /// The characters of a string value; `None` for any other value.
    pub fn as_str(&self) -> (r: Option<&str>)
        ensures
            match r {
                Some(s) => self matches JsonValue::String(t) && s@ == t@,
                None => !(self is String),
            },
    {
        match self {
            JsonValue::String(s) => Some(s.as_str()),
            _ => None,
        }
    }

    /// Writes the compact JSON text of the value.
    pub fn to_string(&self) -> (r: String)
        ensures
            r@ == self.text(),
    {
        match self {
            JsonValue::Null => String::from_str("null"),
            JsonValue::String(s) => outside::json_string(s.as_str()),
            JsonValue::Other(s) => s.clone(),
        }
    }
}

/// A JSON-RPC request.
///
/// A request consists of the `jsonrpc` version, the method being called, its
/// positional parameters and an identifier.
#[derive(Debug)]
pub struct RpcRequest {
    /// The JSON-RPC protocol version, typically "2.0".
    pub jsonrpc: String,
    /// The method name to be invoked.
    pub method: String,
    /// The positional parameters; empty where the request carries none.
    pub params: Vec<JsonValue>,
    /// The identifier for the request, used to match with a response.
    pub id: JsonValue,
}

impl RpcRequest {
    /// The characters of the first parameter; empty where it is no string.
    pub open spec fn raw_param(self) -> Seq<char> {
        if self.params@.len() > 0 && self.params@[0] is String {
            self.params@[0]->String_0@
        } else {
            Seq::empty()
        }
    }

    /// Reads the first parameter as text; empty where it is no string.
    pub fn first_param_text(&self) -> (r: String)
        ensures
            r@ == self.raw_param(),
    {
        if self.params.len() > 0 {
            match self.params[0].as_str() {
                Some(s) => String::from_str(s),
                None => String::new(),
            }
        } else {
            String::new()
        }
    }
}

/// One request or a batch of requests.
#[derive(Debug)]
pub enum RpcEnvelope {
    /// A single request.
    Single(RpcRequest),
    /// A batch, to be answered in the order of its requests.
    Batch(Vec<RpcRequest>),
}

/// What a JSON-RPC response carries besides its identifier.
#[derive(Debug, PartialEq, Eq)]
pub enum RpcOutcome {
    /// The call succeeded with this value.
    Result(JsonValue),
    /// The call failed with this code and message.
    Error { code: i64, message: String },
}

/// A JSON-RPC response.
#[derive(Debug, PartialEq, Eq)]
pub struct RpcResponse {
    /// The JSON-RPC protocol version.
    pub jsonrpc: String,
    /// The identifier of the request that is answered.
    pub id: JsonValue,
    /// The result or the error.
    pub outcome: RpcOutcome,
}

impl RpcResponse {
    /// Whether this is the error response with the given parts.
    pub open spec fn is_error(self, id: JsonValue, code: int, message: Seq<char>) -> bool {
        &&& self.jsonrpc@ == "2.0"@
        &&& self.id == id
        &&& self.outcome matches RpcOutcome::Error { code: c, message: m }
        &&& c == code
        &&& m@ == message
    }

    /// Whether this is the success response with the given text as its result.
    pub open spec fn is_text_result(self, id: JsonValue, text: Seq<char>) -> bool {
        &&& self.jsonrpc@ == "2.0"@
        &&& self.id == id
        &&& self.outcome matches RpcOutcome::Result(JsonValue::String(s))
        &&& s@ == text
    }

    /// Builds an error response.
    pub fn error(id: JsonValue, code: i64, message: String) -> (r: RpcResponse)
        ensures
            r.is_error(id, code as int, message@),
    {
        RpcResponse {
            jsonrpc: String::from_str("2.0"),
            id,
            outcome: RpcOutcome::Error { code, message },
        }
    }

    /// Builds a success response whose result is a string.
    pub fn text_result(id: JsonValue, text: String) -> (r: RpcResponse)
        ensures
            r.is_text_result(id, text@),
    {
        RpcResponse {
            jsonrpc: String::from_str("2.0"),
            id,
            outcome: RpcOutcome::Result(JsonValue::String(text)),
        }
    }
}

/// A reply of the execution layer, as far as it is looked into.
#[derive(Debug, PartialEq, Eq)]
pub struct ElReply {
    /// The field `result`, where the reply has one.
    pub result: Option<JsonValue>,
}

/// The type of an IGRA L2 transaction, as announced in the base-layer payload.
#[derive(Debug, Clone, Copy, PartialEq, Eq, Structural)]
pub enum TxTypeId {
    /// L2 start transaction.
    L2Start,
    /// Entry transaction.
    Entry,
    /// One L2 transaction, as it is.
    UnzippedPayload,
    /// One L2 transaction, ZLIB-compressed.
    ZippedPayload,
}

impl TxTypeId {
    /// The four-bit number of the type.
    pub open spec fn spec_code(self) -> u8 {
        match self {
            TxTypeId::L2Start => 0x00,
            TxTypeId::Entry => 0x02,
            TxTypeId::UnzippedPayload => 0x04,
            TxTypeId::ZippedPayload => 0x05,
        }
    }

    /// The four-bit number of the type.
    pub fn code(self) -> (r: u8)
        ensures
            r == self.spec_code(),
    {
        match self {
            TxTypeId::L2Start => 0x00,
            TxTypeId::Entry => 0x02,
            TxTypeId::UnzippedPayload => 0x04,
            TxTypeId::ZippedPayload => 0x05,
        }
    }
}

/// The IGRA payload of a base-layer transaction.
#[derive(Debug, Clone, PartialEq, Eq)]
pub struct IgraPayload {
    /// The payload format version.
    pub version: u8,
    /// The type of L2 transaction.
    pub tx_type_id: TxTypeId,
    /// The L2-specific data.
    pub l2_data: Vec<u8>,
    /// The nonce at the end of the payload.
    pub nonce: [u8; NONCE_SIZE],
}

/// A successful JSON-RPC response with a typed result.
#[derive(Debug)]
pub struct JsonRpcResponse<T> {
    /// The JSON-RPC protocol version.
    pub jsonrpc: String,
    /// The identifier of the request that is answered.
    pub id: JsonValue,
    /// The result.
    pub result: T,
}

/// What the gas price rules read of an Ethereum block.
#[derive(Debug)]
pub struct Block {
    /// The base fee per gas for this block (EIP-1559).
    pub base_fee_per_gas: Option<U256>,
    /// Block number (unused, optional).
    pub number: Option<U256>,
    /// Block hash (unused, optional).
    pub hash: Option<String>,
}

impl Default for Block {
    fn default() -> (r: Self)
        ensures
            r.base_fee_per_gas is None,
            r.number is None,
            r.hash is None,
    {
        Block { base_fee_per_gas: None, number: None, hash: None }
    }
}

/// The raw transaction of a request is its first parameter, whatever parameters
/// follow; there is none where the first parameter is missing or no string.
pub proof fn raw_transactions_come_first(req: RpcRequest)
    ensures
        req.params@.len() == 0 ==> req.raw_param().len() == 0,
        req.params@.len() > 0 ==> match req.params@[0] {
            JsonValue::String(s) => req.raw_param() == s@,
            _ => req.raw_param().len() == 0,
        },
{
}

/// The numbers of the transaction types fit four bits and tell the types apart.
pub proof fn type_codes_are_distinct(a: TxTypeId, b: TxTypeId)
    ensures
        a.spec_code() < 16,
        a.spec_code() == b.spec_code() ==> a == b,
        a.spec_code() == 4 <==> a == TxTypeId::UnzippedPayload,
        a.spec_code() == 5 <==> a == TxTypeId::ZippedPayload,
{
}

} // verus!
