//! A JSON-RPC provider for the IGRA execution layer: the rules by which
//! requests are admitted, routed, priced and turned into base-layer payloads.

pub mod api;
pub mod bytes;
pub mod clients;
pub mod config;
pub mod error;
pub mod errors;
pub mod outside;
pub mod reasons;
pub mod services;
pub mod text;
pub mod types;
