//! Security configuration.

use vstd::prelude::*;

verus! {

/// Whether the method whitelist is on where the configuration does not say.
pub const DEFAULT_ENABLE_WHITELIST: bool = true;

/// Security configuration.
#[derive(Debug, Clone, PartialEq, Eq)]
pub struct SecurityConfig {
    /// Enable the method whitelist.
    pub enable_whitelist: bool,
    /// Refuse every write method.
    pub read_only: bool,
}

impl Default for SecurityConfig {
    fn default() -> (r: Self)
        ensures
            !r.enable_whitelist,
            !r.read_only,
    {
        SecurityConfig { enable_whitelist: false, read_only: false }
    }
}

impl SecurityConfig {
    /// Creates a configuration with default values.
    pub fn new() -> (r: Self)
        ensures
            r.enable_whitelist == DEFAULT_ENABLE_WHITELIST,
            !r.read_only,
    {
        SecurityConfig { enable_whitelist: DEFAULT_ENABLE_WHITELIST, read_only: false }
    }

    /// Creates a configuration with the whitelist enabled or disabled.
    pub fn with_whitelist(enable_whitelist: bool) -> (r: Self)
        ensures
            r.enable_whitelist == enable_whitelist,
            !r.read_only,
    {
        SecurityConfig { enable_whitelist, read_only: false }
    }

    /// Validates the security configuration; every combination is accepted.
    pub fn validate(&self) -> (r: Result<(), String>)
        ensures
            r is Ok,
    {
        Ok(())
    }

    /// Whether the method whitelist is enabled.
    pub fn whitelist_enabled(&self) -> (r: bool)
        ensures
            r == self.enable_whitelist,
    {
        self.enable_whitelist
    }

    /// Whether write methods are refused.
    pub fn is_read_only(&self) -> (r: bool)
        ensures
            r == self.read_only,
    {
        self.read_only
    }
}

} // verus!
