//! Errors by concern.

pub mod transaction;
