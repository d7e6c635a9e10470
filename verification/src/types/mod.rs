//! The data that the rules speak of.

pub mod envelope;
pub mod rpc;
pub mod u256;
pub mod wallet;
pub mod whitelist;
