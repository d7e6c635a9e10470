//! Validation of `eth_sendRawTransaction` requests.

use crate::error::AppError;
use crate::errors::transaction::TransactionError;
use crate::outside;
use crate::services::transaction::fees;
use crate::text;
use crate::types::envelope::TxEnvelope;
use crate::types::rpc::{JsonValue, RpcRequest, RpcResponse};
use crate::types::u256::U256;
use vstd::prelude::*;
use vstd::string::*;
#[allow(unused_imports)]
use vstd::utf8::*;

verus! {

/// The transaction hash as clients see it.
pub open spec fn hash_text(tx_bytes: Seq<u8>) -> Seq<char> {
    "0x"@ + text::hex_text(outside::keccak256_of(tx_bytes))
}

/// The digits behind the `0x` of a raw transaction, with a zero in front where
/// their number is odd.
pub open spec fn payload_digits(raw_tx: Seq<char>) -> Seq<char> {
    if encode_utf8(raw_tx).len() % 2 != 0 {
        "0"@ + raw_tx.skip(2)
    } else {
        raw_tx.skip(2)
    }
}

/// Whether a raw transaction is `0x` followed by hexadecimal digits only.
pub open spec fn is_hex_transaction(raw_tx: Seq<char>) -> bool {
    "0x"@.is_prefix_of(raw_tx) && text::all_hex_digits(encode_utf8(raw_tx.skip(2)))
}

/// The bytes that a raw transaction spells.
pub open spec fn transaction_bytes(raw_tx: Seq<char>) -> Seq<u8> {
    text::hex_decoded(encode_utf8(payload_digits(raw_tx)))
}

/// Whether `r` is the verdict on an encoded transaction: it must parse, and
/// where a base fee is given its fees must suffice.
pub open spec fn transaction_outcome(
    data: Seq<u8>,
    decoded: Result<TxEnvelope, Seq<char>>,
    base_fee: Option<nat>,
    r: Result<(), TransactionError>,
) -> bool {
    match fees::parsed_transaction(data, decoded) {
        Err(reason) => r matches Err(e) && e.is_format_error("Internal error: "@ + reason),
        Ok((tx, tx_type)) => match base_fee {
            Some(min_fee) => fees::fee_outcome(tx, min_fee, tx_type, r),
            None => r is Ok,
        },
    }
}

/// The value of an optional amount.
pub open spec fn amount(fee: Option<U256>) -> Option<nat> {
    match fee {
        Some(f) => Some(f@),
        None => None,
    }
}

/// Whether `r` is the answer to a request to validate a raw transaction.
pub open spec fn request_outcome(
    req: RpcRequest,
    base_fee: Option<nat>,
    decoded: Result<TxEnvelope, Seq<char>>,
    r: (Result<(), RpcResponse>, Option<Vec<u8>>),
) -> bool {
    let raw_tx = req.raw_param();
    if !is_hex_transaction(raw_tx) {
        &&& r.0 matches Err(e)
        &&& e.is_error(req.id, -32001, "Invalid L2 transaction format"@)
        &&& r.1 is None
    } else {
        exists|verdict: Result<(), TransactionError>| #[trigger]
            transaction_outcome(transaction_bytes(raw_tx), decoded, base_fee, verdict)
                && match verdict {
                Ok(_) => {
                    &&& r.0 is Ok
                    &&& r.1 matches Some(bytes)
                    &&& bytes@ == transaction_bytes(raw_tx)
                },
                Err(error) => {
                    &&& r.0 matches Err(e)
                    &&& e.is_error(req.id, error.rpc_code(), error.message())
                    &&& r.1 is None
                },
            }
    }
}

/// What validation needs to know of a transaction.
#[derive(Debug)]
pub struct TransactionValidationContext {
    transaction_id: String,
    transaction_hash: String,
    transaction_bytes: Vec<u8>,
    effective_base_fee: Option<U256>,
}

impl TransactionValidationContext {
    /// The identifier of the request.
    pub closed spec fn id_view(self) -> Seq<char> {
        self.transaction_id@
    }

    /// The transaction hash text.
    pub closed spec fn hash_view(self) -> Seq<char> {
        self.transaction_hash@
    }

    /// The encoded transaction.
    pub closed spec fn bytes_view(self) -> Seq<u8> {
        self.transaction_bytes@
    }

    /// The base fee to validate against.
    pub closed spec fn base_fee_view(self) -> Option<U256> {
        self.effective_base_fee
    }

    /// Collects the parts, computing the transaction hash.
    pub fn new(tx_id: String, tx_bytes: Vec<u8>, base_fee: Option<U256>) -> (r: Self)
        ensures
            r.id_view() == tx_id@,
            r.hash_view() == hash_text(tx_bytes@),
            r.bytes_view() == tx_bytes@,
            r.base_fee_view() == base_fee,
    {
        let tx_hash = transaction_hash_text(tx_bytes.as_slice());
        TransactionValidationContext {
            transaction_id: tx_id,
            transaction_hash: tx_hash,
            transaction_bytes: tx_bytes,
            effective_base_fee: base_fee,
        }
    }

    /// The identifier of the request.
    pub fn id(&self) -> (r: &str)
        ensures
            r@ == self.id_view(),
    {
        self.transaction_id.as_str()
    }

    /// The transaction hash text.
    pub fn hash(&self) -> (r: &str)
        ensures
            r@ == self.hash_view(),
    {
        self.transaction_hash.as_str()
    }

    /// The encoded transaction.
    pub fn bytes(&self) -> (r: &[u8])
        ensures
            r@ == self.bytes_view(),
    {
        self.transaction_bytes.as_slice()
    }

    /// The base fee to validate against.
    pub fn base_fee(&self) -> (r: Option<U256>)
        ensures
            r == self.base_fee_view(),
    {
        self.effective_base_fee
    }
}

/// Computes the transaction hash from raw bytes.
pub fn compute_transaction_hash(tx_bytes: &[u8]) -> (r: [u8; 32])
    ensures
        r@ == outside::keccak256_of(tx_bytes@),
{
    outside::keccak256(tx_bytes)
}

/// Writes a transaction hash the way clients see it.
pub fn format_hash(hash: &[u8; 32]) -> (r: String)
    ensures
        r@ == "0x"@ + text::hex_text(hash@),
{
    let digits = outside::hex_encode(hash.as_slice());
    text::concat2("0x", digits.as_str())
}

/// Computes the transaction hash and writes it the way clients see it.
pub fn transaction_hash_text(tx_bytes: &[u8]) -> (r: String)
    ensures
        r@ == hash_text(tx_bytes@),
{
    let hash = compute_transaction_hash(tx_bytes);
    format_hash(&hash)
}

/// Parses the transaction of a validation context.
pub fn parse_transaction_with_context(context: &TransactionValidationContext) -> (r: Result<
    (TxEnvelope, u8),
    TransactionError,
>)
    ensures
        match fees::parsed_transaction(
            context.bytes_view(),
            outside::decoded_envelope(context.bytes_view()),
        ) {
            Ok(parsed) => r matches Ok(p) && p == parsed,
            Err(reason) => r matches Err(e) && e.is_format_error("Internal error: "@ + reason),
        },
{
    match fees::parse_rlp_transaction(context.bytes()) {
        Ok(parsed) => Ok(parsed),
        Err(e) => Err(TransactionError::invalid_transaction_format(e.to_string())),
    }
}

/// Judges a transaction by what parsing made of it: a parse error stands, and
/// where a base fee is given the fees must suffice.
pub fn judge_parsed(
    parsed: Result<(TxEnvelope, u8), TransactionError>,
    base_fee: Option<U256>,
    tx_hash: &str,
) -> (r: Result<(), TransactionError>)
    ensures
        match parsed {
            Err(e) => r == Err::<(), TransactionError>(e),
            Ok((tx, tx_type)) => match base_fee {
                Some(min_fee) => fees::fee_outcome(tx, min_fee@, tx_type, r),
                None => r is Ok,
            },
        },
{
    match parsed {
        Err(e) => Err(e),
        Ok((tx, tx_type)) => match base_fee {
            Some(min_fee) => fees::validate_gas_fee_with_type(&tx, min_fee, tx_type, tx_hash),
            None => Ok(()),
        },
    }
}

/// Validates encoding and fees of a transaction.
pub fn validate_comprehensive_transaction(context: &TransactionValidationContext) -> (r: Result<
    (),
    TransactionError,
>)
    ensures
        transaction_outcome(
            context.bytes_view(),
            outside::decoded_envelope(context.bytes_view()),
            amount(context.base_fee_view()),
            r,
        ),
{
    judge_parsed(parse_transaction_with_context(context), context.base_fee(), context.hash())
}

/// Validates the fees of the transaction of a validation context.
pub fn validate_transaction_fees(context: &TransactionValidationContext) -> (r: Result<
    (),
    TransactionError,
>)
    ensures
        transaction_outcome(
            context.bytes_view(),
            outside::decoded_envelope(context.bytes_view()),
            amount(context.base_fee_view()),
            r,
        ),
{
    validate_comprehensive_transaction(context)
}

/// The identifier of a request as JSON text.
pub fn extract_transaction_id(req: &RpcRequest) -> (r: String)
    ensures
        r@ == req.id.text(),
{
    req.id.to_string()
}

/// Extracts the raw transaction text from the request parameters.
pub fn extract_raw_transaction(req: &RpcRequest) -> (r: Result<String, RpcResponse>)
    ensures
        match r {
            Ok(raw_tx) => "0x"@.is_prefix_of(raw_tx@) && raw_tx@ == req.raw_param(),
            Err(e) => {
                &&& !"0x"@.is_prefix_of(req.raw_param())
                &&& e.is_error(req.id, -32001, "Invalid L2 transaction format"@)
            },
        },
{
    let raw_tx = req.first_param_text();
    if !text::starts_with(raw_tx.as_str(), "0x") {
        return Err(AppError::InvalidTransactionFormat.to_json_rpc_error(req.id.clone()));
    }
    Ok(raw_tx)
}

/// Decodes the digits behind `0x` to transaction bytes, an odd number of digits
/// being padded with a leading zero. Bad digits are refused under `id`.
pub fn decode_hex_transaction(raw_tx: &str, id: &JsonValue) -> (r: Result<Vec<u8>, RpcResponse>)
    requires
        "0x"@.is_prefix_of(raw_tx@),
    ensures
        match r {
            Ok(bytes) => is_hex_transaction(raw_tx@) && bytes@ == transaction_bytes(raw_tx@),
            Err(e) => {
                &&& !is_hex_transaction(raw_tx@)
                &&& e.is_error(*id, -32001, "Invalid L2 transaction format"@)
            },
        },
{
    proof {
        padded_digits_are_even(raw_tx@);
        reveal_strlit("0x");
    }
    let digits = text::skip_chars(raw_tx, 2);
    let hex_text = if raw_tx.as_bytes().len() % 2 != 0 {
        text::concat2("0", digits)
    } else {
        String::from_str(digits)
    };
    match outside::hex_decode(hex_text.as_str()) {
        Ok(bytes) => Ok(bytes),
        Err(_) => Err(AppError::InvalidTransactionFormat.to_json_rpc_error(id.clone())),
    }
}

/// Validates an incoming transaction request and returns the decoded
/// transaction bytes.
pub fn validate_transaction_request(req: &RpcRequest, effective_base_fee: Option<U256>) -> (r: (
    Result<(), RpcResponse>,
    Option<Vec<u8>>,
))
    ensures
        request_outcome(
            *req,
            amount(effective_base_fee),
            outside::decoded_envelope(transaction_bytes(req.raw_param())),
            r,
        ),
{
    let transaction_id = extract_transaction_id(req);
    let raw_tx = match extract_raw_transaction(req) {
        Ok(tx) => tx,
        Err(error) => return (Err(error), None),
    };
    let tx_bytes = match decode_hex_transaction(raw_tx.as_str(), &req.id) {
        Ok(bytes) => bytes,
        Err(error) => return (Err(error), None),
    };
    let context = TransactionValidationContext::new(
        transaction_id,
        tx_bytes.clone(),
        effective_base_fee,
    );
    let verdict = validate_comprehensive_transaction(&context);
    assert(context.bytes_view() =~= tx_bytes@);
    assert(transaction_outcome(
        transaction_bytes(req.raw_param()),
        outside::decoded_envelope(transaction_bytes(req.raw_param())),
        amount(effective_base_fee),
        verdict,
    ));
    match verdict {
        Err(error) => (Err(error.to_json_rpc_error(req.id.clone())), None),
        Ok(_) => (Ok(()), Some(tx_bytes)),
    }
}

/// The padded digits of a raw transaction are even in number, and they are all
/// hexadecimal exactly where the digits themselves are.
pub proof fn padded_digits_are_even(raw_tx: Seq<char>)
    requires
        "0x"@.is_prefix_of(raw_tx),
    ensures
        encode_utf8(payload_digits(raw_tx)).len() % 2 == 0,
        text::all_hex_digits(encode_utf8(payload_digits(raw_tx))) <==> is_hex_transaction(raw_tx),
{
    reveal_strlit("0x");
    reveal_strlit("0");
    let digits = raw_tx.skip(2);
    assert(raw_tx =~= "0x"@ + digits);
    text::encode_utf8_concat("0x"@, digits);
    text::encode_utf8_concat("0"@, digits);
    assert(is_ascii_chars("0x"@));
    assert(is_ascii_chars("0"@));
    is_ascii_chars_encode_utf8("0x"@);
    is_ascii_chars_encode_utf8("0"@);
    let plain = encode_utf8(digits);
    let padded = encode_utf8("0"@ + digits);
    assert(encode_utf8("0"@)[0] == 0x30);
    assert(padded[0] == 0x30);
    assert(forall|i: int| 0 <= i < plain.len() ==> plain[i] == #[trigger] padded[i + 1]);
    if text::all_hex_digits(padded) {
        assert forall|i: int| 0 <= i < plain.len() implies text::is_hex_digit(
            #[trigger] plain[i],
        ) by {
            assert(plain[i] == padded[i + 1]);
        }
    }
    if text::all_hex_digits(plain) {
        assert forall|i: int| 0 <= i < padded.len() implies text::is_hex_digit(
            #[trigger] padded[i],
        ) by {
            if i > 0 {
                assert(plain[i - 1] == padded[i]);
            }
        }
    }
}

/// Every byte sequence can be submitted: the raw transaction made of `0x` and
/// its hexadecimal text is well formed and spells exactly these bytes.
pub proof fn hex_text_submits_its_bytes(bytes: Seq<u8>)
    ensures
        is_hex_transaction("0x"@ + text::hex_text(bytes)),
        transaction_bytes("0x"@ + text::hex_text(bytes)) == bytes,
{
    let digits = text::hex_text(bytes);
    let raw_tx = "0x"@ + digits;
    reveal_strlit("0x");
    text::hex_text_round_trip(bytes);
    text::encode_utf8_concat("0x"@, digits);
    assert(is_ascii_chars("0x"@));
    is_ascii_chars_encode_utf8("0x"@);
    assert(raw_tx.skip(2) =~= digits);
    assert("0x"@.is_prefix_of(raw_tx));
}

/// An odd number of digits stands for the same transaction as those digits with
/// a zero in front.
pub proof fn odd_digits_get_a_leading_zero(digits: Seq<char>)
    requires
        encode_utf8(digits).len() % 2 != 0,
    ensures
        is_hex_transaction("0x"@ + digits) <==> is_hex_transaction("0x"@ + ("0"@ + digits)),
        transaction_bytes("0x"@ + digits) == transaction_bytes("0x"@ + ("0"@ + digits)),
{
    let odd = "0x"@ + digits;
    let even = "0x"@ + ("0"@ + digits);
    reveal_strlit("0x");
    reveal_strlit("0");
    assert(is_ascii_chars("0x"@));
    assert(is_ascii_chars("0"@));
    is_ascii_chars_encode_utf8("0x"@);
    is_ascii_chars_encode_utf8("0"@);
    text::encode_utf8_concat("0x"@, digits);
    text::encode_utf8_concat("0x"@, "0"@ + digits);
    text::encode_utf8_concat("0"@, digits);
    assert(odd.skip(2) =~= digits);
    assert(even.skip(2) =~= "0"@ + digits);
    assert("0x"@.is_prefix_of(odd)) by {
        assert(odd.subrange(0, 2) =~= "0x"@);
    }
    assert("0x"@.is_prefix_of(even)) by {
        assert(even.subrange(0, 2) =~= "0x"@);
    }
    padded_digits_are_even(odd);
    padded_digits_are_even(even);
    assert(payload_digits(odd) == payload_digits(even));
}

/// The answer to a transaction request decides acceptance by the transaction
/// alone: a request is accepted exactly where its first parameter is `0x`
/// followed by hexadecimal digits that spell a supported transaction whose fees
/// suffice, and then its bytes are handed on.
pub proof fn accepted_requests_are_valid(
    req: RpcRequest,
    base_fee: Option<nat>,
    decoded: Result<TxEnvelope, Seq<char>>,
    r: (Result<(), RpcResponse>, Option<Vec<u8>>),
)
    requires
        request_outcome(req, base_fee, decoded, r),
    ensures
        r.0 is Ok <==> {
            &&& is_hex_transaction(req.raw_param())
            &&& fees::parsed_transaction(transaction_bytes(req.raw_param()), decoded) matches Ok(
                (tx, tx_type),
            )
            &&& base_fee matches Some(min_fee) ==> fees::offers_fee(tx, tx_type, min_fee)
        },
        r.0 is Ok <==> r.1 is Some,
        r.1 matches Some(bytes) ==> bytes@ == transaction_bytes(req.raw_param()),
{
}

/// A request that is refused, for whatever reason, is answered under its own
/// identifier, so that the client can tell which request failed.
pub proof fn refusals_echo_the_request_id(
    req: RpcRequest,
    base_fee: Option<nat>,
    decoded: Result<TxEnvelope, Seq<char>>,
    r: (Result<(), RpcResponse>, Option<Vec<u8>>),
)
    requires
        request_outcome(req, base_fee, decoded, r),
    ensures
        r.0 matches Err(e) ==> e.id == req.id && e.outcome is Error,
{
}

/// A well-formed raw transaction starts with `0x`, and behind that stand only
/// digits and the letters from `a` to `f`, small or capital, of any number.
pub proof fn well_formed_transactions_are_hexadecimal(raw_tx: Seq<char>, i: int)
    requires
        is_hex_transaction(raw_tx),
    ensures
        raw_tx.len() >= 2,
        raw_tx[0] == '0',
        raw_tx[1] == 'x',
        2 <= i < raw_tx.len() ==> ('0' <= raw_tx[i] && raw_tx[i] <= '9') || ('a' <= raw_tx[i]
            && raw_tx[i] <= 'f') || ('A' <= raw_tx[i] && raw_tx[i] <= 'F'),
        transaction_bytes(raw_tx).len() == (raw_tx.len() - 1) / 2,
{
    reveal_strlit("0x");
    reveal_strlit("0");
    assert(raw_tx.subrange(0, 2)[0] == raw_tx[0]);
    assert(raw_tx.subrange(0, 2)[1] == raw_tx[1]);
    let digits = raw_tx.skip(2);
    let bytes = encode_utf8(digits);
    assert(forall|k: int| 0 <= k < bytes.len() ==> #[trigger] bytes[k] < 128);
    ascii_bytes_are_their_characters(digits);
    if 2 <= i < raw_tx.len() {
        assert(digits[i - 2] == raw_tx[i]);
        assert(text::is_hex_digit(bytes[i - 2]));
        assert(raw_tx[i] as u32 == bytes[i - 2] as u32);
        char_u32_cast(raw_tx[i], bytes[i - 2] as u32);
    }
    assert(raw_tx =~= "0x"@ + digits);
    assert("0x"@.len() == 2);
    assert(is_ascii_chars("0x"@));
    assert(is_ascii_chars("0"@));
    is_ascii_chars_encode_utf8("0x"@);
    is_ascii_chars_encode_utf8("0"@);
    text::encode_utf8_concat("0x"@, digits);
    text::encode_utf8_concat("0"@, digits);
}

/// A text whose UTF-8 form holds ASCII bytes only has one byte per character.
proof fn ascii_bytes_are_their_characters(s: Seq<char>)
    requires
        forall|k: int| 0 <= k < encode_utf8(s).len() ==> #[trigger] encode_utf8(s)[k] < 128,
    ensures
        encode_utf8(s).len() == s.len(),
        forall|k: int| 0 <= k < s.len() ==> #[trigger] s[k] as u32 == encode_utf8(s)[k] as u32,
    decreases s.len(),
{
    if s.len() > 0 {
        let head = seq![s[0]];
        let rest = s.drop_first();
        assert(s =~= head + rest);
        text::encode_utf8_concat(head, rest);
        let all = encode_utf8(s);
        let first = encode_utf8(head);
        assert forall|k: int| 0 <= k < encode_utf8(rest).len() implies #[trigger] encode_utf8(
            rest,
        )[k] < 128 by {
            assert(encode_utf8(rest)[k] == all[first.len() + k]);
        }
        ascii_bytes_are_their_characters(rest);
        assert(first == encode_scalar(s[0] as u32) + encode_utf8(head.drop_first()));
        assert(encode_utf8(head.drop_first()).len() == 0);
        assert(first.len() >= 1);
        assert(first[0] == all[0]);
        encode_utf8_first_scalar(s);
        assert(length_of_first_scalar(all) == 1) by {
            assert(valid_first_scalar(all));
        }
        assert(has_width_1_encoding(s[0] as u32));
        char_u32_cast(s[0], s[0] as u32);
        assert('\0' <= s[0] && s[0] <= '\u{7f}');
        assert(is_ascii_chars(head));
        is_ascii_chars_encode_utf8(head);
        assert forall|k: int| 0 <= k < s.len() implies #[trigger] s[k] as u32 == all[k] as u32 by {
            if k > 0 {
                assert(s[k] == rest[k - 1]);
                assert(all[k] == encode_utf8(rest)[k - 1]);
            }
        }
    }
}

/// The transaction hash that clients see spells the digest of the transaction.
pub proof fn hash_text_spells_the_digest(tx_bytes: Seq<u8>)
    ensures
        is_hex_transaction(hash_text(tx_bytes)),
        transaction_bytes(hash_text(tx_bytes)) == outside::keccak256_of(tx_bytes),
        hash_text(tx_bytes).len() == 2 + 2 * outside::keccak256_of(tx_bytes).len(),
{
    reveal_strlit("0x");
    hex_text_submits_its_bytes(outside::keccak256_of(tx_bytes));
}

/// Without a base fee a transaction is judged by its encoding alone; with one its
/// fees are looked at as well. A transaction that does not parse is refused for
/// its format, whatever the base fee.
pub proof fn base_fees_only_add_a_check(
    data: Seq<u8>,
    decoded: Result<TxEnvelope, Seq<char>>,
    min_fee: nat,
    unpriced: Result<(), TransactionError>,
    priced: Result<(), TransactionError>,
)
    requires
        transaction_outcome(data, decoded, None, unpriced),
        transaction_outcome(data, decoded, Some(min_fee), priced),
    ensures
        unpriced is Ok <==> fees::parsed_transaction(data, decoded) is Ok,
        priced is Ok ==> unpriced is Ok,
        unpriced is Err ==> priced is Err && unpriced->Err_0.rpc_code() == -32001
            && priced->Err_0.rpc_code() == -32001,
        priced is Ok <==> (fees::parsed_transaction(data, decoded) matches Ok((tx, tx_type))
            && fees::offers_fee(tx, tx_type, min_fee)),
{
}

/// A refused request is told why: text that is not hexadecimal by one fixed
/// message, a transaction that does not parse by the reason of the parser, and
/// one whose fees do not suffice by the amounts.
pub proof fn refusals_give_the_reason(
    req: RpcRequest,
    base_fee: Option<nat>,
    decoded: Result<TxEnvelope, Seq<char>>,
    r: (Result<(), RpcResponse>, Option<Vec<u8>>),
)
    requires
        request_outcome(req, base_fee, decoded, r),
    ensures
        !is_hex_transaction(req.raw_param()) ==> r.0 is Err && r.0->Err_0.outcome->code == -32001
            && r.0->Err_0.outcome->message@ == "Invalid L2 transaction format"@,
        is_hex_transaction(req.raw_param()) ==> (match fees::parsed_transaction(
            transaction_bytes(req.raw_param()),
            decoded,
        ) {
            Err(reason) => r.0 is Err && r.0->Err_0.outcome->code == -32001
                && r.0->Err_0.outcome->message@ == "Invalid transaction format: "@ + (
            "Internal error: "@ + reason),
            Ok(_) => base_fee is None ==> r.0 is Ok,
        }),
{
}

} // verus!
