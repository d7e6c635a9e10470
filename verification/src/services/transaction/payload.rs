//! The payload of the base-layer transaction that carries an L2 transaction.

use crate::bytes;
use crate::error::AppError;
use crate::outside;
use crate::text;
use crate::types::rpc::{IgraPayload, TxTypeId, NONCE_SIZE};
use vstd::prelude::*;
use vstd::string::*;

verus! {

/// The version of the IgraPayload format.
pub const VERSION: u8 = 0x9;

/// ZLIB compression level, pinned to the standard default so that compressed
/// payloads do not change with the defaults of a library.
pub const ZLIB_COMPRESSION_LEVEL: u32 = 6;

/// The wire form of a payload: version and type share the first byte, then come
/// the data and the nonce.
pub open spec fn payload_bytes(payload: IgraPayload) -> Seq<u8> {
    seq![(payload.version * 16 + payload.tx_type_id.spec_code()) as u8] + payload.l2_data@
        + payload.nonce@
}

/// Why a payload cannot be serialized; `None` where it can.
pub open spec fn payload_flaw(payload: IgraPayload) -> Option<Seq<char>> {
    if payload.l2_data@.len() == 0 {
        Some("l2_data cannot be empty"@)
    } else if payload.version > 0x0f {
        Some(
            "Version must be a 4-bit value, but got 0x"@ + text::hex_number_text(
                payload.version as nat,
            ),
        )
    } else {
        None
    }
}

/// The type and the data with which an L2 transaction travels: compressed where
/// that is strictly shorter, as it is otherwise.
pub open spec fn chosen_data(tx_bytes: Seq<u8>, compressed: Option<Seq<u8>>) -> (
    TxTypeId,
    Seq<u8>,
) {
    match compressed {
        Some(stream) if stream.len() < tx_bytes.len() => (TxTypeId::ZippedPayload, stream),
        _ => (TxTypeId::UnzippedPayload, tx_bytes),
    }
}

/// Whether `payload` is what carries `tx_bytes`, given their compressed form.
pub open spec fn carries(
    payload: IgraPayload,
    tx_bytes: Seq<u8>,
    compressed: Option<Seq<u8>>,
) -> bool {
    &&& payload.version == VERSION
    &&& (payload.tx_type_id, payload.l2_data@) == chosen_data(tx_bytes, compressed)
    &&& payload.nonce@ == seq![0u8, 0u8, 0u8, 0u8]
}

/// The view of an optional byte vector.
pub open spec fn optional_bytes(bytes: Option<Vec<u8>>) -> Option<Seq<u8>> {
    match bytes {
        Some(b) => Some(b@),
        None => None,
    }
}

/// Compresses data with ZLIB at a fixed level; `None` where the encoder fails.
/// The compressed form is never empty.
pub fn compress_zlib(data: &[u8]) -> (r: Option<Vec<u8>>)
    ensures
        optional_bytes(r) == outside::zlib_stream(data@, ZLIB_COMPRESSION_LEVEL),
        optional_bytes(r) == outside::zlib_stream(data@, 6),
        r matches Some(stream) ==> stream@.len() > 0,
{
    outside::zlib_compress(data, ZLIB_COMPRESSION_LEVEL)
}

/// Builds the payload for a transaction from its bytes and their compressed
/// form, which is used only where it saves space.
///
/// The nonce slot is kept zeroed for the stability of the wire format.
pub fn build_payload(tx_bytes: &[u8], compressed: Option<Vec<u8>>) -> (r: IgraPayload)
    ensures
        carries(r, tx_bytes@, optional_bytes(compressed)),
{
    let nonce: [u8; NONCE_SIZE] = [0, 0, 0, 0];
    assert(nonce@ =~= seq![0u8, 0u8, 0u8, 0u8]);
    let (l2_data, tx_type_id) = match compressed {
        Some(stream) => if stream.len() < tx_bytes.len() {
            (stream, TxTypeId::ZippedPayload)
        } else {
            (bytes::copied(tx_bytes), TxTypeId::UnzippedPayload)
        },
        None => (bytes::copied(tx_bytes), TxTypeId::UnzippedPayload),
    };
    IgraPayload { version: VERSION, tx_type_id, l2_data, nonce }
}

/// Serializes an `IgraPayload`.
///
/// The format is:
/// - `version` (4 bits) and `tx_type_id` (4 bits) in one byte
/// - `l2_data` (variable length)
/// - `nonce` (4 bytes)
pub fn serialize_payload(payload: &IgraPayload) -> (r: Result<Vec<u8>, AppError>)
    ensures
        match payload_flaw(*payload) {
            Some(reason) => r matches Err(AppError::SerializationError(m)) && m@ == reason,
            None => r matches Ok(bytes) && bytes@ == payload_bytes(*payload),
        },
{
    if payload.l2_data.len() == 0 {
        return Err(AppError::SerializationError(String::from_str("l2_data cannot be empty")));
    }
    if payload.version > 0x0f {
        let digits = text::hex_number(payload.version as u128);
        return Err(
            AppError::SerializationError(
                text::concat2("Version must be a 4-bit value, but got 0x", digits.as_str()),
            ),
        );
    }
    let version: u8 = payload.version;
    let code: u8 = payload.tx_type_id.code();
    assert((version << 4u8) | code == version * 16 + code) by (bit_vector)
        requires
            version <= 0x0f,
            code <= 0x0f,
    ;
    let mut buffer: Vec<u8> = Vec::new();
    buffer.push((version << 4u8) | code);
    buffer.extend_from_slice(payload.l2_data.as_slice());
    buffer.extend_from_slice(payload.nonce.as_slice());
    assert(buffer@ =~= payload_bytes(*payload));
    Ok(buffer)
}

/// Compression is used exactly where it saves space, so a payload never carries
/// more data than the transaction has bytes, and the receiver can tell from the
/// type whether to decompress.
pub proof fn compression_only_saves_space(
    payload: IgraPayload,
    tx_bytes: Seq<u8>,
    compressed: Option<Seq<u8>>,
)
    requires
        carries(payload, tx_bytes, compressed),
    ensures
        payload.l2_data@.len() <= tx_bytes.len(),
        payload.tx_type_id == TxTypeId::ZippedPayload <==> (compressed matches Some(stream)
            && stream.len() < tx_bytes.len()),
        payload.tx_type_id == TxTypeId::ZippedPayload ==> compressed == Some(payload.l2_data@),
        payload.tx_type_id != TxTypeId::ZippedPayload ==> payload.tx_type_id
            == TxTypeId::UnzippedPayload && payload.l2_data@ == tx_bytes,
{
}

/// The payload built for a non-empty transaction has no flaw as long as its
/// compressed form, where that is used, is not empty either.
pub proof fn carrying_payloads_serialize(
    payload: IgraPayload,
    tx_bytes: Seq<u8>,
    compressed: Option<Seq<u8>>,
)
    requires
        carries(payload, tx_bytes, compressed),
        tx_bytes.len() > 0,
        compressed matches Some(stream) ==> stream.len() > 0,
    ensures
        payload_flaw(payload) is None,
{
}

/// The wire form is unambiguous: two payloads without a flaw that serialize to
/// the same bytes agree in version, type, data and nonce.
pub proof fn payload_bytes_are_unambiguous(a: IgraPayload, b: IgraPayload)
    requires
        payload_flaw(a) is None,
        payload_flaw(b) is None,
        payload_bytes(a) == payload_bytes(b),
    ensures
        a.version == b.version,
        a.tx_type_id == b.tx_type_id,
        a.l2_data@ == b.l2_data@,
        a.nonce@ == b.nonce@,
{
    let wire = payload_bytes(a);
    let n = wire.len();
    assert(a.nonce@.len() == 4 && b.nonce@.len() == 4);
    assert(a.l2_data@ =~= wire.subrange(1, n - 4));
    assert(b.l2_data@ =~= wire.subrange(1, n - 4));
    assert(a.nonce@ =~= wire.subrange(n - 4, n as int));
    assert(b.nonce@ =~= wire.subrange(n - 4, n as int));
    assert(wire[0] == a.version * 16 + a.tx_type_id.spec_code());
    assert(payload_bytes(b)[0] == b.version * 16 + b.tx_type_id.spec_code());
}

/// The wire form of a payload has a fixed layout: the upper half of the first
/// byte is the version and the lower half the type, then come the data, then the
/// nonce.
pub proof fn wire_form_has_a_fixed_layout(payload: IgraPayload)
    requires
        payload_flaw(payload) is None,
    ensures
        ({
            let wire = payload_bytes(payload);
            let n = payload.l2_data@.len() as int;
            &&& wire.len() == n + 5
            &&& wire[0] / 16 == payload.version
            &&& wire[0] % 16 == payload.tx_type_id.spec_code()
            &&& wire.subrange(1, n + 1) == payload.l2_data@
            &&& wire.subrange(n + 1, n + 5) == payload.nonce@
        }),
{
    let wire = payload_bytes(payload);
    let n = payload.l2_data@.len() as int;
    assert(wire.subrange(1, n + 1) =~= payload.l2_data@);
    assert(wire.subrange(n + 1, n + 5) =~= payload.nonce@);
    assert(payload.tx_type_id.spec_code() < 16);
}

/// A payload can be serialized exactly where it has data and its version fits
/// four bits.
pub proof fn payloads_need_data_and_a_short_version(payload: IgraPayload)
    ensures
        payload_flaw(payload) is None <==> payload.l2_data@.len() > 0 && payload.version <= 15,
{
}

/// A transaction travels compressed exactly where that is shorter, under the
/// current version of the format and with a nonce of zeros.
pub proof fn the_shorter_form_travels(
    payload: IgraPayload,
    tx_bytes: Seq<u8>,
    stream: Seq<u8>,
)
    requires
        carries(payload, tx_bytes, Some(stream)),
    ensures
        stream.len() < tx_bytes.len() ==> payload.l2_data@ == stream && payload.tx_type_id
            == TxTypeId::ZippedPayload,
        stream.len() >= tx_bytes.len() ==> payload.l2_data@ == tx_bytes && payload.tx_type_id
            == TxTypeId::UnzippedPayload,
        payload.version == 9,
        forall|i: int| 0 <= i < 4 ==> #[trigger] payload.nonce@[i] == 0,
        payload.nonce@.len() == 4,
{
}

} // verus!
