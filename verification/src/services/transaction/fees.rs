//! Decoding of raw Ethereum transactions and the minimum fee rules.

use crate::error::AppError;
use crate::errors::transaction::TransactionError;
use crate::outside;
use crate::services::transaction::tx_types;
use crate::text;
use crate::types::envelope::TxEnvelope;
use crate::types::u256::U256;
use vstd::prelude::*;
use vstd::string::*;

verus! {

/// Maximum transaction size in bytes (128 KiB, sufficient for all Ethereum
/// transaction types). Larger inputs are refused before they are decoded.
pub const MAX_TRANSACTION_SIZE: usize = 131072;

/// The human-readable name of a transaction type.
pub open spec fn name_of_type(tx_type: u8) -> Seq<char> {
    if tx_type == tx_types::LEGACY {
        "Legacy"@
    } else if tx_type == tx_types::EIP2930 {
        "EIP-2930"@
    } else if tx_type == tx_types::EIP1559 {
        "EIP-1559"@
    } else if tx_type == tx_types::BLOB {
        "EIP-4844 (Blob)"@
    } else {
        "Unknown"@
    }
}

/// The transaction type that the first byte of an encoding announces: a typed
/// transaction starts with its type, a legacy one with an RLP header.
pub open spec fn announced_type(first_byte: u8) -> u8 {
    if first_byte < 0x80 {
        first_byte
    } else {
        tx_types::LEGACY
    }
}

/// Why an encoding is refused before it is decoded; `None` where it is not.
pub open spec fn refused_encoding(data: Seq<u8>) -> Option<Seq<char>> {
    if data.len() > MAX_TRANSACTION_SIZE {
        Some(
            "Transaction too large: "@ + text::decimal_text(data.len()) + " bytes (max: "@
                + text::decimal_text(MAX_TRANSACTION_SIZE as nat) + " bytes)"@,
        )
    } else if data.len() == 0 {
        Some("Empty transaction data"@)
    } else if announced_type(data[0]) >= tx_types::BLOB {
        Some("Unsupported transaction type: "@ + text::decimal_text(announced_type(data[0]) as nat))
    } else {
        None
    }
}

/// A decoded transaction with its type, or the reason why there is none, from
/// an encoding and what decoding makes of it.
pub open spec fn parsed_transaction(
    data: Seq<u8>,
    decoded: Result<TxEnvelope, Seq<char>>,
) -> Result<(TxEnvelope, u8), Seq<char>> {
    match refused_encoding(data) {
        Some(reason) => Err(reason),
        None => match decoded {
            Ok(tx) => Ok((tx, announced_type(data[0]))),
            Err(message) => Err(
                "Failed to decode transaction (type "@ + text::decimal_text(
                    announced_type(data[0]) as nat,
                ) + "): "@ + message,
            ),
        },
    }
}

/// Whether `r` is what the legacy and EIP-2930 fee rule says: the gas price
/// must reach the minimum.
pub open spec fn gas_price_outcome(
    tx: TxEnvelope,
    min_fee: nat,
    tx_type: u8,
    r: Result<(), TransactionError>,
) -> bool {
    match tx {
        TxEnvelope::Legacy { gas_price } | TxEnvelope::Eip2930 { gas_price } => if gas_price
            < min_fee {
            r matches Err(e) && e.is_insufficient_fee(min_fee, gas_price as nat)
        } else {
            r is Ok
        },
        _ => r matches Err(e) && e.is_format_error(
            name_of_type(tx_type) + " transaction has unexpected envelope type"@,
        ),
    }
}

/// Whether `r` is what the EIP-1559 fee rule says: the priority fee must not
/// exceed the maximum fee, and both must reach the minimum.
pub open spec fn eip1559_outcome(
    tx: TxEnvelope,
    min_fee: nat,
    r: Result<(), TransactionError>,
) -> bool {
    match tx {
        TxEnvelope::Eip1559 { max_fee_per_gas, max_priority_fee_per_gas } => {
            if max_priority_fee_per_gas > max_fee_per_gas {
                r matches Err(e) && e.is_eip1559_error(
                    max_fee_per_gas as nat,
                    max_priority_fee_per_gas as nat,
                    min_fee,
                )
            } else if max_fee_per_gas < min_fee {
                r matches Err(e) && e.is_insufficient_fee(min_fee, max_fee_per_gas as nat)
            } else if max_priority_fee_per_gas < min_fee {
                r matches Err(e) && e.is_insufficient_fee(min_fee, max_priority_fee_per_gas as nat)
            } else {
                r is Ok
            }
        },
        _ => r matches Err(e) && e.is_format_error(
            name_of_type(tx_types::EIP1559) + " transaction has unexpected envelope type"@,
        ),
    }
}

/// Whether `r` is what the fee rule for a transaction type says.
pub open spec fn fee_outcome(
    tx: TxEnvelope,
    min_fee: nat,
    tx_type: u8,
    r: Result<(), TransactionError>,
) -> bool {
    if tx_type == tx_types::LEGACY || tx_type == tx_types::EIP2930 {
        gas_price_outcome(tx, min_fee, tx_type, r)
    } else if tx_type == tx_types::EIP1559 {
        eip1559_outcome(tx, min_fee, r)
    } else {
        r matches Err(e) && e.is_format_error(
            "Unsupported transaction type: "@ + text::decimal_text(tx_type as nat) + " ("@
                + name_of_type(tx_type) + ")"@,
        )
    }
}

/// Whether a transaction of the given type offers at least the minimum fee.
pub open spec fn offers_fee(tx: TxEnvelope, tx_type: u8, min_fee: nat) -> bool {
    match tx {
        TxEnvelope::Legacy { gas_price } | TxEnvelope::Eip2930 { gas_price } => {
            &&& tx_type == tx_types::LEGACY || tx_type == tx_types::EIP2930
            &&& min_fee <= gas_price
        },
        TxEnvelope::Eip1559 { max_fee_per_gas, max_priority_fee_per_gas } => {
            &&& tx_type == tx_types::EIP1559
            &&& min_fee <= max_priority_fee_per_gas <= max_fee_per_gas
        },
        _ => false,
    }
}

/// Detects the transaction type from the first byte of an encoding.
pub fn detect_transaction_type(data: &[u8]) -> (r: Result<u8, AppError>)
    ensures
        match r {
            Ok(tx_type) => data@.len() > 0 && tx_type == announced_type(data@[0]),
            Err(e) => {
                &&& data@.len() == 0
                &&& e matches AppError::Internal(m)
                &&& m@ == "Empty transaction data"@
            },
        },
{
    if data.len() == 0 {
        return Err(AppError::Internal(String::from_str("Empty transaction data")));
    }
    let first_byte: u8 = data[0];
    if first_byte < 0x80 {
        Ok(first_byte)
    } else {
        Ok(tx_types::LEGACY)
    }
}

/// Checks size and type of an encoding before it is decoded, and gives its type.
pub fn check_encoding(data: &[u8]) -> (r: Result<u8, AppError>)
    ensures
        match r {
            Ok(tx_type) => refused_encoding(data@) is None && tx_type == announced_type(data@[0]),
            Err(e) => {
                &&& e matches AppError::Internal(m)
                &&& refused_encoding(data@) == Some(m@)
            },
        },
{
    if data.len() > MAX_TRANSACTION_SIZE {
        return Err(
            AppError::Internal(
                text::concat5(
                    "Transaction too large: ",
                    text::decimal(data.len() as u128).as_str(),
                    " bytes (max: ",
                    text::decimal(MAX_TRANSACTION_SIZE as u128).as_str(),
                    " bytes)",
                ),
            ),
        );
    }
    let tx_type: u8 = match detect_transaction_type(data) {
        Ok(t) => t,
        Err(e) => return Err(e),
    };
    if tx_type >= tx_types::BLOB {
        return Err(
            AppError::Internal(
                text::concat2(
                    "Unsupported transaction type: ",
                    text::decimal(tx_type as u128).as_str(),
                ),
            ),
        );
    }
    Ok(tx_type)
}

/// Combines an accepted encoding's type with what decoding made of it.
pub fn finish_decoding(tx_type: u8, decoded: Result<TxEnvelope, String>) -> (r: Result<
    (TxEnvelope, u8),
    AppError,
>)
    ensures
        match decoded {
            Ok(tx) => r matches Ok(p) && p == (tx, tx_type),
            Err(message) => {
                &&& r matches Err(AppError::Internal(m))
                &&& m@ == "Failed to decode transaction (type "@ + text::decimal_text(
                    tx_type as nat,
                ) + "): "@ + message@
            },
        },
{
    match decoded {
        Ok(tx) => Ok((tx, tx_type)),
        Err(message) => Err(
            AppError::Internal(
                text::concat4(
                    "Failed to decode transaction (type ",
                    text::decimal(tx_type as u128).as_str(),
                    "): ",
                    message.as_str(),
                ),
            ),
        ),
    }
}

/// Parses RLP-encoded transaction data and returns the transaction with its
/// type.
///
/// The size is checked before decoding, and blob, EIP-7702 and unknown types
/// are rejected.
pub fn parse_rlp_transaction(data: &[u8]) -> (r: Result<(TxEnvelope, u8), AppError>)
    ensures
        match r {
            Ok(parsed) => parsed_transaction(data@, outside::decoded_envelope(data@)) == Ok::<
                (TxEnvelope, u8),
                Seq<char>,
            >(parsed),
            Err(e) => {
                &&& e matches AppError::Internal(m)
                &&& parsed_transaction(data@, outside::decoded_envelope(data@)) == Err::<
                    (TxEnvelope, u8),
                    Seq<char>,
                >(m@)
            },
        },
{
    let tx_type: u8 = match check_encoding(data) {
        Ok(t) => t,
        Err(e) => return Err(e),
    };
    finish_decoding(tx_type, outside::decode_envelope(data))
}

/// Gets the human-readable name of a transaction type.
pub fn get_transaction_type_name(tx_type: u8) -> (r: &'static str)
    ensures
        r@ == name_of_type(tx_type),
{
    if tx_type == tx_types::LEGACY {
        "Legacy"
    } else if tx_type == tx_types::EIP2930 {
        "EIP-2930"
    } else if tx_type == tx_types::EIP1559 {
        "EIP-1559"
    } else if tx_type == tx_types::BLOB {
        "EIP-4844 (Blob)"
    } else {
        "Unknown"
    }
}

/// The fee fields of a transaction.
#[derive(Debug, Clone)]
pub enum GasFeeInfo {
    /// Legacy and EIP-2930 transactions have a single gas price.
    Legacy { gas_price: U256 },
    /// EIP-1559 transactions have a maximum fee and a maximum priority fee.
    Eip1559 { max_fee_per_gas: U256, max_priority_fee_per_gas: U256 },
}

/// Extracts the fee fields of a transaction.
pub fn extract_gas_fees(tx: &TxEnvelope) -> (r: Result<GasFeeInfo, AppError>)
    ensures
        match *tx {
            TxEnvelope::Legacy { gas_price } | TxEnvelope::Eip2930 { gas_price } => {
                &&& r matches Ok(GasFeeInfo::Legacy { gas_price: p })
                &&& p@ == gas_price
            },
            TxEnvelope::Eip1559 { max_fee_per_gas, max_priority_fee_per_gas } => {
                &&& r matches Ok(
                    GasFeeInfo::Eip1559 { max_fee_per_gas: m, max_priority_fee_per_gas: p },
                )
                &&& m@ == max_fee_per_gas
                &&& p@ == max_priority_fee_per_gas
            },
            TxEnvelope::Eip4844 => {
                &&& r matches Err(AppError::Internal(m))
                &&& m@ == "EIP-4844 blob transactions are not supported"@
            },
            TxEnvelope::Eip7702 => {
                &&& r matches Err(AppError::Internal(m))
                &&& m@ == "EIP-7702 transactions are not supported"@
            },
        },
{
    match *tx {
        TxEnvelope::Legacy { gas_price } => Ok(
            GasFeeInfo::Legacy { gas_price: U256::from_u128(gas_price) },
        ),
        TxEnvelope::Eip2930 { gas_price } => Ok(
            GasFeeInfo::Legacy { gas_price: U256::from_u128(gas_price) },
        ),
        TxEnvelope::Eip1559 { max_fee_per_gas, max_priority_fee_per_gas } => Ok(
            GasFeeInfo::Eip1559 {
                max_fee_per_gas: U256::from_u128(max_fee_per_gas),
                max_priority_fee_per_gas: U256::from_u128(max_priority_fee_per_gas),
            },
        ),
        TxEnvelope::Eip4844 => Err(
            AppError::Internal(String::from_str("EIP-4844 blob transactions are not supported")),
        ),
        TxEnvelope::Eip7702 => Err(
            AppError::Internal(String::from_str("EIP-7702 transactions are not supported")),
        ),
    }
}

/// Validates the fees of a transaction by the rule for its type.
pub fn validate_gas_fee_with_type(
    tx: &TxEnvelope,
    min_protocol_fee: U256,
    tx_type: u8,
    tx_hash: &str,
) -> (r: Result<(), TransactionError>)
    ensures
        fee_outcome(*tx, min_protocol_fee@, tx_type, r),
{
    if tx_type == tx_types::LEGACY || tx_type == tx_types::EIP2930 {
        validate_legacy_or_eip2930(tx, min_protocol_fee, tx_type, tx_hash)
    } else if tx_type == tx_types::EIP1559 {
        validate_eip1559(tx, min_protocol_fee, tx_hash)
    } else {
        Err(
            TransactionError::invalid_transaction_format(
                text::concat5(
                    "Unsupported transaction type: ",
                    text::decimal(tx_type as u128).as_str(),
                    " (",
                    get_transaction_type_name(tx_type),
                    ")",
                ),
            ),
        )
    }
}

/// Validates legacy (type 0) and EIP-2930 (type 1) transactions: the gas price
/// must reach the minimum protocol fee.
pub fn validate_legacy_or_eip2930(
    tx: &TxEnvelope,
    min_protocol_fee: U256,
    tx_type: u8,
    _tx_hash: &str,
) -> (r: Result<(), TransactionError>)
    ensures
        gas_price_outcome(*tx, min_protocol_fee@, tx_type, r),
{
    let gas_price: U256 = match *tx {
        TxEnvelope::Legacy { gas_price } => U256::from_u128(gas_price),
        TxEnvelope::Eip2930 { gas_price } => U256::from_u128(gas_price),
        _ => {
            return Err(
                TransactionError::invalid_transaction_format(
                    text::concat2(
                        get_transaction_type_name(tx_type),
                        " transaction has unexpected envelope type",
                    ),
                ),
            );
        },
    };
    if gas_price.less_than(&min_protocol_fee) {
        return Err(
            TransactionError::insufficient_gas_fee(
                min_protocol_fee.to_string(),
                gas_price.to_string(),
            ),
        );
    }
    Ok(())
}

/// Validates EIP-1559 (type 2) transactions:
/// - the priority fee must not exceed the maximum fee,
/// - the maximum fee must reach the minimum protocol fee,
/// - the priority fee must reach the minimum protocol fee.
pub fn validate_eip1559(tx: &TxEnvelope, min_protocol_fee: U256, _tx_hash: &str) -> (r: Result<
    (),
    TransactionError,
>)
    ensures
        eip1559_outcome(*tx, min_protocol_fee@, r),
{
    let (max_fee_per_gas, max_priority_fee_per_gas): (U256, U256) = match *tx {
        TxEnvelope::Eip1559 { max_fee_per_gas, max_priority_fee_per_gas } => (
            U256::from_u128(max_fee_per_gas),
            U256::from_u128(max_priority_fee_per_gas),
        ),
        _ => {
            return Err(
                TransactionError::invalid_transaction_format(
                    text::concat2(
                        get_transaction_type_name(tx_types::EIP1559),
                        " transaction has unexpected envelope type",
                    ),
                ),
            );
        },
    };
    if max_fee_per_gas.less_than(&max_priority_fee_per_gas) {
        return Err(
            TransactionError::eip1559_validation_failed(
                max_fee_per_gas.to_string(),
                max_priority_fee_per_gas.to_string(),
                min_protocol_fee.to_string(),
            ),
        );
    }
    if max_fee_per_gas.less_than(&min_protocol_fee) {
        return Err(
            TransactionError::insufficient_gas_fee(
                min_protocol_fee.to_string(),
                max_fee_per_gas.to_string(),
            ),
        );
    }
    if max_priority_fee_per_gas.less_than(&min_protocol_fee) {
        return Err(
            TransactionError::insufficient_gas_fee(
                min_protocol_fee.to_string(),
                max_priority_fee_per_gas.to_string(),
            ),
        );
    }
    Ok(())
}

/// Fee validation accepts exactly the transactions that offer the minimum fee
/// in the form that their type asks for.
pub proof fn fee_validation_accepts_exactly_sufficient_fees(
    tx: TxEnvelope,
    tx_type: u8,
    min_fee: nat,
    r: Result<(), TransactionError>,
)
    requires
        fee_outcome(tx, min_fee, tx_type, r),
    ensures
        r is Ok <==> offers_fee(tx, tx_type, min_fee),
{
}

/// A transaction that is accepted at one minimum fee is accepted at every lower
/// one.
pub proof fn fee_validation_is_monotone(
    tx: TxEnvelope,
    tx_type: u8,
    min_fee: nat,
    lower_fee: nat,
    r: Result<(), TransactionError>,
    lower_r: Result<(), TransactionError>,
)
    requires
        lower_fee <= min_fee,
        fee_outcome(tx, min_fee, tx_type, r),
        fee_outcome(tx, lower_fee, tx_type, lower_r),
        r is Ok,
    ensures
        lower_r is Ok,
{
}

/// Blob transactions and every later type are refused, whatever their bytes
/// decode to.
pub proof fn later_types_are_refused(data: Seq<u8>, decoded: Result<TxEnvelope, Seq<char>>)
    requires
        data.len() > 0,
        tx_types::BLOB <= data[0] < 0x80,
    ensures
        parsed_transaction(data, decoded) is Err,
{
}

/// Every encoding of a supported type is decoded, whatever its length: one that
/// starts with an RLP list header, of a short or of a long list, is a legacy
/// transaction, and one that starts with 0, 1 or 2 is of that type. What decoding
/// makes of it is then the outcome, with nothing refused for its type.
pub proof fn supported_encodings_are_decoded(
    data: Seq<u8>,
    decoded: Result<TxEnvelope, Seq<char>>,
)
    requires
        1 <= data.len() <= 131072,
        data[0] < 3 || data[0] >= 0x80,
    ensures
        refused_encoding(data) is None,
        parsed_transaction(data, decoded) is Ok <==> decoded is Ok,
        data[0] >= 0x80 ==> announced_type(data[0]) == 0,
        data[0] < 3 ==> announced_type(data[0]) == data[0],
        decoded matches Ok(tx) ==> parsed_transaction(data, decoded) == Ok::<_, Seq<char>>(
            (
                tx,
                if data[0] >= 0x80 {
                    0u8
                } else {
                    data[0]
                },
            ),
        ),
        decoded matches Err(message) ==> parsed_transaction(data, decoded) == Err::<
            (TxEnvelope, u8),
            _,
        >(
            "Failed to decode transaction (type "@ + text::decimal_text(
                if data[0] >= 0x80 {
                    0
                } else {
                    data[0] as nat
                },
            ) + "): "@ + message,
        ),
{
}

/// An encoding that is empty, longer than 128 KiB or of another type is refused,
/// whatever its bytes would decode to.
pub proof fn other_encodings_are_refused(data: Seq<u8>, decoded: Result<TxEnvelope, Seq<char>>)
    requires
        data.len() == 0 || data.len() > 131072 || 3 <= data[0] < 0x80,
    ensures
        refused_encoding(data) is Some,
        parsed_transaction(data, decoded) is Err,
        refused_encoding(data) matches Some(reason) ==> parsed_transaction(data, decoded) == Err::<
            (TxEnvelope, u8),
            _,
        >(reason),
        data.len() > 131072 ==> refused_encoding(data) == Some(
            "Transaction too large: "@ + text::decimal_text(data.len()) + " bytes (max: "@
                + text::decimal_text(131072) + " bytes)"@,
        ),
        data.len() == 0 ==> refused_encoding(data) == Some("Empty transaction data"@),
        1 <= data.len() <= 131072 ==> refused_encoding(data) == Some(
            "Unsupported transaction type: "@ + text::decimal_text(data[0] as nat),
        ),
{
}

/// The fields of a transaction decide by themselves whether its fees suffice: a
/// gas price must reach the minimum; of an EIP-1559 transaction the priority fee
/// must, and the maximum fee must not be below the priority fee. The announced
/// type must be one for such fields.
pub proof fn fee_fields_decide_acceptance(
    tx: TxEnvelope,
    tx_type: u8,
    min_fee: nat,
    r: Result<(), TransactionError>,
)
    requires
        fee_outcome(tx, min_fee, tx_type, r),
    ensures
        match tx {
            TxEnvelope::Legacy { gas_price } => r is Ok <==> tx_type <= 1 && gas_price >= min_fee,
            TxEnvelope::Eip2930 { gas_price } => r is Ok <==> tx_type <= 1 && gas_price >= min_fee,
            TxEnvelope::Eip1559 { max_fee_per_gas, max_priority_fee_per_gas } => r is Ok <==> {
                &&& tx_type == 2
                &&& max_priority_fee_per_gas >= min_fee
                &&& max_fee_per_gas >= max_priority_fee_per_gas
            },
            TxEnvelope::Eip4844 => r is Err,
            TxEnvelope::Eip7702 => r is Err,
        },
{
}

/// A fee that is too low is refused with the minimum and with the fee that was
/// too low: the gas price, or of an EIP-1559 transaction the maximum fee where
/// that is below the minimum and else the priority fee. Where the priority fee
/// exceeds the maximum fee, the error names both.
pub proof fn low_fees_are_named(
    tx: TxEnvelope,
    tx_type: u8,
    min_fee: nat,
    r: Result<(), TransactionError>,
)
    requires
        fee_outcome(tx, min_fee, tx_type, r),
        r is Err,
    ensures
        match tx {
            TxEnvelope::Legacy { gas_price } | TxEnvelope::Eip2930 { gas_price } => tx_type <= 1
                ==> r->Err_0.message() == "Insufficient gas fee: required "@ + text::decimal_text(
                min_fee,
            ) + " wei, provided "@ + text::decimal_text(gas_price as nat) + " wei"@,
            TxEnvelope::Eip1559 { max_fee_per_gas, max_priority_fee_per_gas } => tx_type == 2
                ==> r->Err_0.message() == if max_priority_fee_per_gas > max_fee_per_gas {
                "EIP-1559 validation failed: max_fee_per_gas "@ + text::decimal_text(
                    max_fee_per_gas as nat,
                ) + " wei, max_priority_fee_per_gas "@ + text::decimal_text(
                    max_priority_fee_per_gas as nat,
                ) + " wei, min_protocol_fee "@ + text::decimal_text(min_fee) + " wei"@
            } else if max_fee_per_gas < min_fee {
                "Insufficient gas fee: required "@ + text::decimal_text(min_fee)
                    + " wei, provided "@ + text::decimal_text(max_fee_per_gas as nat) + " wei"@
            } else {
                "Insufficient gas fee: required "@ + text::decimal_text(min_fee)
                    + " wei, provided "@ + text::decimal_text(max_priority_fee_per_gas as nat)
                    + " wei"@
            },
            _ => true,
        },
        r->Err_0.rpc_code() == if r->Err_0 is InvalidTransactionFormat {
            -32001
        } else {
            -32000int
        },
{
}

/// The supported types and blob transactions have a name; every later type is
/// unknown.
pub proof fn later_types_have_no_name(tx_type: u8)
    ensures
        name_of_type(tx_type) == "Unknown"@ <==> tx_type > 3,
{
    reveal_strlit("Legacy");
    reveal_strlit("EIP-2930");
    reveal_strlit("EIP-1559");
    reveal_strlit("EIP-4844 (Blob)");
    reveal_strlit("Unknown");
    assert("Legacy"@.len() != "Unknown"@.len());
    assert("EIP-2930"@.len() != "Unknown"@.len());
    assert("EIP-1559"@.len() != "Unknown"@.len());
    assert("EIP-4844 (Blob)"@.len() != "Unknown"@.len());
}

} // verus!
