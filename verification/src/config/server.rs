//! HTTP server configuration.

use crate::text;
use vstd::prelude::*;
use vstd::string::*;

verus! {

/// Seconds that the write path waits where the configuration names none.
///
/// Operators set this just below the read timeout of their reverse proxy, so
/// that clients get a structured timeout error instead of a truncated response.
pub const DEFAULT_PROCESSING_TIMEOUT_SECONDS: u64 = 120;

/// The longest accepted wait of the write path, in seconds.
pub const MAX_PROCESSING_TIMEOUT_SECONDS: u64 = 300;

/// HTTP server configuration.
#[derive(Debug, Clone, PartialEq, Eq)]
pub struct ServerConfig {
    /// Server host address.
    pub host: String,
    /// Server port.
    pub port: u16,
    /// Maximum seconds that the write path waits for a queued transaction.
    pub processing_timeout_seconds: u64,
}

impl Default for ServerConfig {
    fn default() -> (r: Self)
        ensures
            r.host@.len() == 0,
            r.port == 0,
            r.processing_timeout_seconds == DEFAULT_PROCESSING_TIMEOUT_SECONDS,
    {
        ServerConfig {
            host: String::new(),
            port: 0,
            processing_timeout_seconds: DEFAULT_PROCESSING_TIMEOUT_SECONDS,
        }
    }
}

impl ServerConfig {
    /// Why the configuration is refused; `None` where it is accepted.
    pub open spec fn flaw(self) -> Option<Seq<char>> {
        if self.host@.len() == 0 {
            Some("Server host cannot be empty"@)
        } else if self.port == 0 {
            Some("Server port cannot be zero"@)
        } else if self.processing_timeout_seconds == 0 || self.processing_timeout_seconds
            > MAX_PROCESSING_TIMEOUT_SECONDS {
            Some(
                "Server processing_timeout_seconds must be between 1 and 300, got "@
                    + text::decimal_text(self.processing_timeout_seconds as nat),
            )
        } else {
            None
        }
    }

    /// Creates a configuration with default values.
    pub fn new() -> (r: Self)
        ensures
            r.host@.len() == 0,
            r.port == 0,
            r.processing_timeout_seconds == DEFAULT_PROCESSING_TIMEOUT_SECONDS,
    {
        ServerConfig::default()
    }

    /// Creates a configuration with a specific host and port.
    pub fn with_address(host: String, port: u16) -> (r: Self)
        ensures
            r.host == host,
            r.port == port,
            r.processing_timeout_seconds == DEFAULT_PROCESSING_TIMEOUT_SECONDS,
    {
        ServerConfig {
            host,
            port,
            processing_timeout_seconds: DEFAULT_PROCESSING_TIMEOUT_SECONDS,
        }
    }

    /// The full server address.
    pub fn address(&self) -> (r: String)
        ensures
            r@ == self.host@ + ":"@ + text::decimal_text(self.port as nat),
    {
        text::concat3(self.host.as_str(), ":", text::decimal(self.port as u128).as_str())
    }

    /// Validates the server configuration.
    pub fn validate(&self) -> (r: Result<(), String>)
        ensures
            match r {
                Ok(_) => self.flaw() is None,
                Err(m) => self.flaw() == Some(m@),
            },
    {
        if self.host.as_str().unicode_len() == 0 {
            return Err(String::from_str("Server host cannot be empty"));
        }
        if self.port == 0 {
            return Err(String::from_str("Server port cannot be zero"));
        }
        if self.processing_timeout_seconds == 0 || self.processing_timeout_seconds
            > MAX_PROCESSING_TIMEOUT_SECONDS {
            return Err(
                text::concat2(
                    "Server processing_timeout_seconds must be between 1 and 300, got ",
                    text::decimal(self.processing_timeout_seconds as u128).as_str(),
                ),
            );
        }
        Ok(())
    }
}

/// A server configuration is accepted exactly where it names a host and a port
/// and the write path waits from one second to five minutes.
pub proof fn accepted_servers_are_complete(config: ServerConfig)
    ensures
        config.flaw() is None <==> config.host@.len() > 0 && config.port > 0 && 1
            <= config.processing_timeout_seconds <= 300,
{
}

} // verus!
