//! Calls into other crates and into parts of std that carry no specification
//! of their own. Every contract in this file is believed, not proved.

#[allow(unused_imports)]
use crate::text;
use crate::types::envelope::TxEnvelope;
#[allow(unused_imports)]
use crate::types::u256;
use alloy::rlp::Decodable;
use std::io::Write;
use vstd::prelude::*;
#[allow(unused_imports)]
use vstd::utf8::*;

verus! {

/// The message of the error with which `hex::decode` refuses a text.
pub uninterp spec fn hex_error_text(text: Seq<char>) -> Seq<char>;

/// The Keccak-256 digest that `alloy::primitives::keccak256` computes.
pub uninterp spec fn keccak256_of(data: Seq<u8>) -> Seq<u8>;

/// What `TxEnvelope::decode` of alloy makes of a byte sequence: the kind and
/// the fees of the transaction, or the message of the decoding error.
pub uninterp spec fn decoded_envelope(data: Seq<u8>) -> Result<TxEnvelope, Seq<char>>;

/// The ZLIB stream that flate2 writes for `data` at a compression level;
/// `None` where the encoder reports an error.
pub uninterp spec fn zlib_stream(data: Seq<u8>, level: u32) -> Option<Seq<u8>>;

/// The lower-case form that `str::to_lowercase` gives a text.
pub uninterp spec fn lowercase_of(text: Seq<char>) -> Seq<char>;

/// The `Duration` of a number of whole seconds and nanoseconds.
pub uninterp spec fn duration_of(secs: u64, nanos: u32) -> std::time::Duration;

/// `hex::encode`: two lower-case hexadecimal digits per byte, in order.
#[verifier::external_body]
pub(crate) fn hex_encode(bytes: &[u8]) -> (r: String)
    ensures
        r@ == text::hex_text(bytes@),
{
    hex::encode(bytes)
}

/// `hex::decode`: succeeds exactly on an even number of bytes that are all
/// hexadecimal digits of either case, and then gives one byte per pair of
/// digits. The text of its error is named, not spelled out.
#[verifier::external_body]
pub(crate) fn hex_decode(text: &str) -> (r: Result<Vec<u8>, String>)
    ensures
        match r {
            Ok(bytes) => {
                &&& encode_utf8(text@).len() % 2 == 0
                &&& text::all_hex_digits(encode_utf8(text@))
                &&& bytes@ == text::hex_decoded(encode_utf8(text@))
            },
            Err(message) => {
                &&& !(encode_utf8(text@).len() % 2 == 0 && text::all_hex_digits(encode_utf8(text@)))
                &&& message@ == hex_error_text(text@)
            },
        },
{
    hex::decode(text).map_err(|e| e.to_string())
}

/// `alloy::primitives::keccak256`: the Keccak-256 digest of the data, which is
/// named and not spelled out.
#[verifier::external_body]
pub(crate) fn keccak256(data: &[u8]) -> (r: [u8; 32])
    ensures
        r@ == keccak256_of(data@),
{
    alloy::primitives::keccak256(data).0
}

/// `TxEnvelope::decode` of alloy, in the form that network peers exchange: the
/// outcome is a function of the bytes, which is named and not spelled out.
#[verifier::external_body]
pub(crate) fn decode_envelope(data: &[u8]) -> (r: Result<TxEnvelope, String>)
    ensures
        match r {
            Ok(tx) => decoded_envelope(data@) == Ok::<TxEnvelope, Seq<char>>(tx),
            Err(message) => decoded_envelope(data@) == Err::<TxEnvelope, Seq<char>>(message@),
        },
{
    match alloy::consensus::TxEnvelope::decode(&mut &data[..]).map_err(|e| e.to_string())? {
        alloy::consensus::TxEnvelope::Legacy(tx) => Ok(TxEnvelope::Legacy { gas_price: tx.tx().gas_price }),
        alloy::consensus::TxEnvelope::Eip2930(tx) => Ok(TxEnvelope::Eip2930 { gas_price: tx.tx().gas_price }),
        alloy::consensus::TxEnvelope::Eip1559(tx) => Ok(TxEnvelope::Eip1559 {
            max_fee_per_gas: tx.tx().max_fee_per_gas,
            max_priority_fee_per_gas: tx.tx().max_priority_fee_per_gas,
        }),
        alloy::consensus::TxEnvelope::Eip4844(_) => Ok(TxEnvelope::Eip4844),
        alloy::consensus::TxEnvelope::Eip7702(_) => Ok(TxEnvelope::Eip7702),
    }
}

/// `flate2::write::ZlibEncoder` over a `Vec`: all the data written, then
/// finished. The stream is a function of the data and the level, which is
/// named and not spelled out. It starts with the ZLIB header, so it is never
/// empty.
#[verifier::external_body]
pub(crate) fn zlib_compress(data: &[u8], level: u32) -> (r: Option<Vec<u8>>)
    requires
        level <= 9,
    ensures
        match r {
            Some(stream) => zlib_stream(data@, level) == Some(stream@) && stream@.len() > 0,
            None => zlib_stream(data@, level) == None::<Seq<u8>>,
        },
{
    let mut encoder = flate2::write::ZlibEncoder::new(
        Vec::with_capacity(data.len()),
        flate2::Compression::new(level),
    );
    encoder.write_all(data).ok()?;
    encoder.finish().ok()
}

/// The `Display` of alloy's `U256`: the decimal text of the value of the limbs.
#[verifier::external_body]
pub(crate) fn u256_decimal(limbs: [u64; 4]) -> (r: String)
    ensures
        r@ == text::decimal_text(u256::limbs_value(limbs@)),
{
    alloy::primitives::U256::from_limbs(limbs).to_string()
}

/// `U256::from_str_radix` of ethers with radix 16: after one optional `0x`, up
/// to 64 hexadecimal digits of either case give their value; anything else is
/// an error.
#[verifier::external_body]
pub(crate) fn parse_hex_u256(text: &str) -> (r: Option<[u64; 4]>)
    ensures
        ({
            let digits = encode_utf8(text::without_prefix(text@, "0x"@));
            match r {
                Some(limbs) => {
                    &&& digits.len() <= 64
                    &&& text::all_hex_digits(digits)
                    &&& u256::limbs_value(limbs@) == text::hex_value(digits)
                },
                None => !(digits.len() <= 64 && text::all_hex_digits(digits)),
            }
        }),
{
    ethers::types::U256::from_str_radix(text, 16).ok().map(|value| value.0)
}

/// The `Display` of a `serde_json::Value::String`: the characters between double
/// quotes, where those that JSON does not allow there are escaped.
#[verifier::external_body]
pub(crate) fn json_string(text: &str) -> (r: String)
    ensures
        r@ == json_string_literal(text@),
{
    serde_json::Value::String(text.to_string()).to_string()
}

/// Whether a number is a version 4 UUID: its version digit and its variant bits
/// are as they must be.
pub open spec fn is_v4(uuid: u128) -> bool {
    &&& (uuid / 0x1000_0000_0000_0000_0000) % 16 == 4
    &&& (uuid / 0x4000_0000_0000_0000) % 4 == 2
}

/// `uuid::Uuid::new_v4`: a random number of which only the version digit and
/// the variant bits are fixed.
#[verifier::external_body]
pub(crate) fn random_uuid() -> (r: u128)
    ensures
        is_v4(r),
{
    uuid::Uuid::new_v4().as_u128()
}

/// The `Display` of a `uuid::Uuid`: 32 lower-case hexadecimal digits, most
/// significant first, with hyphens behind the 8th, 12th, 16th and 20th.
#[verifier::external_body]
pub(crate) fn uuid_text(value: u128) -> (r: String)
    ensures
        r@ == hyphenated(padded_hex(value as nat, 32)),
{
    uuid::Uuid::from_u128(value).to_string()
}

/// `str::to_lowercase`: the lower-case form is named; of an ASCII text it is
/// the text with the letters `A` to `Z` replaced by `a` to `z`.
#[verifier::external_body]
pub(crate) fn lowercase(text: &str) -> (r: String)
    ensures
        r@ == lowercase_of(text@),
        is_ascii_chars(text@) ==> r@ == ascii_lowercase(text@),
{
    text.to_lowercase()
}

/// `String::from_utf8`: succeeds exactly on valid UTF-8 and gives the decoded
/// characters.
#[verifier::external_body]
pub(crate) fn text_from_utf8(bytes: Vec<u8>) -> (r: Option<String>)
    ensures
        match r {
            Some(text) => valid_utf8(bytes@) && text@ == decode_utf8(bytes@),
            None => !valid_utf8(bytes@),
        },
{
    String::from_utf8(bytes).ok()
}

/// `Duration::new` on less than a second of nanoseconds. The value is named by
/// the two numbers.
#[verifier::external_body]
pub(crate) fn duration(secs: u64, nanos: u32) -> (r: std::time::Duration)
    requires
        nanos < 1_000_000_000,
    ensures
        r == duration_of(secs, nanos),
{
    std::time::Duration::new(secs, nanos)
}

/// The last `digits` hexadecimal digits of `n`, with leading zeros.
pub open spec fn padded_hex(n: nat, digits: nat) -> Seq<char>
    decreases digits,
{
    if digits == 0 {
        Seq::empty()
    } else {
        padded_hex(n / 16, (digits - 1) as nat).push(text::digit_char((n % 16) as int))
    }
}

/// Thirty-two digits in the five groups of a UUID.
pub open spec fn hyphenated(digits: Seq<char>) -> Seq<char> {
    digits.subrange(0, 8) + "-"@ + digits.subrange(8, 12) + "-"@ + digits.subrange(12, 16) + "-"@
        + digits.subrange(16, 20) + "-"@ + digits.subrange(20, 32)
}

/// A character as it stands in a JSON string literal: quote, backslash and
/// control characters are escaped, the common ones by a letter and the others by
/// their number; any other character stands for itself.
pub open spec fn json_escaped(c: char) -> Seq<char> {
    if c == '"' || c == '\\' {
        seq!['\\', c]
    } else if c == '\u{8}' {
        seq!['\\', 'b']
    } else if c == '\t' {
        seq!['\\', 't']
    } else if c == '\n' {
        seq!['\\', 'n']
    } else if c == '\u{c}' {
        seq!['\\', 'f']
    } else if c == '\r' {
        seq!['\\', 'r']
    } else if (c as u32) < 0x20 {
        seq![
            '\\',
            'u',
            '0',
            '0',
            text::digit_char(c as int / 16),
            text::digit_char(c as int % 16),
        ]
    } else {
        seq![c]
    }
}

/// The characters of a text, each as it stands in a JSON string literal.
pub open spec fn json_escaped_text(text: Seq<char>) -> Seq<char>
    decreases text.len(),
{
    if text.len() == 0 {
        Seq::empty()
    } else {
        json_escaped_text(text.drop_last()) + json_escaped(text.last())
    }
}

/// The JSON string literal for a text, quotes included.
pub open spec fn json_string_literal(text: Seq<char>) -> Seq<char> {
    seq!['"'] + json_escaped_text(text) + seq!['"']
}

/// A text with its ASCII capital letters replaced by small ones.
pub open spec fn ascii_lowercase(text: Seq<char>) -> Seq<char> {
    text.map_values(
        |c: char|
            if 'A' <= c && c <= 'Z' {
                ((c as u32 + 32) as u32) as char
            } else {
                c
            },
    )
}

} // verus!
