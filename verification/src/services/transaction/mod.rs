//! The transaction service: decoding, validation, payloads and processing.

pub mod fees;
pub mod payload;
pub mod processor;
pub mod request;
pub mod tx_types;
pub mod worker;

pub use self::fees::{
    detect_transaction_type, extract_gas_fees, get_transaction_type_name, parse_rlp_transaction,
    validate_eip1559, validate_gas_fee_with_type, validate_legacy_or_eip2930, GasFeeInfo,
};
pub use self::payload::{serialize_payload, VERSION};
pub use self::processor::{process_transaction, process_wallet_call, TransactionRequest};
pub use self::request::{compute_transaction_hash, validate_transaction_request};
