//! Clients of the services behind the provider.

pub mod lane_check;
pub mod wallet_caller;
