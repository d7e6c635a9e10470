//! The services behind the interface.

pub mod gas_price;
pub mod proxy;
pub mod transaction;
