//! The HTTP and WebSocket interface: how messages are read, admitted, routed
//! and answered.

pub mod batch;
pub mod connection;
pub mod health;
pub mod rpc;
pub mod ws;
