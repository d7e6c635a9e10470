//! Gas pricing configuration.

use crate::text;
use vstd::prelude::*;
use vstd::string::*;

verus! {

/// Minimum base fee in gwei where the configuration names none.
pub const DEFAULT_MIN_BASE_FEE_GWEI: u64 = 100;

/// The largest minimum base fee that is accepted: 10,000 gwei.
pub const MAX_REASONABLE_BASE_FEE_GWEI: u64 = 10_000;

/// Number of wei in a gwei.
pub const WEI_PER_GWEI: u128 = 1_000_000_000;

/// Gas pricing configuration.
#[derive(Debug, Clone, PartialEq, Eq)]
pub struct GasConfig {
    /// Minimum base fee in gwei.
    pub min_base_fee_gwei: u64,
}

impl Default for GasConfig {
    fn default() -> (r: Self)
        ensures
            r.min_base_fee_gwei == DEFAULT_MIN_BASE_FEE_GWEI,
    {
        GasConfig { min_base_fee_gwei: DEFAULT_MIN_BASE_FEE_GWEI }
    }
}

impl GasConfig {
    /// The minimum base fee in wei.
    pub open spec fn min_wei(self) -> nat {
        (self.min_base_fee_gwei * WEI_PER_GWEI) as nat
    }

    /// Why the configuration is refused; `None` where it is accepted.
    pub open spec fn flaw(self) -> Option<Seq<char>> {
        if self.min_base_fee_gwei == 0 {
            Some("Minimum base fee cannot be zero"@)
        } else if self.min_base_fee_gwei > MAX_REASONABLE_BASE_FEE_GWEI {
            Some(
                "Minimum base fee is unreasonably high: "@ + text::decimal_text(
                    self.min_base_fee_gwei as nat,
                ) + " gwei (max reasonable: "@ + text::decimal_text(
                    MAX_REASONABLE_BASE_FEE_GWEI as nat,
                ) + " gwei)"@,
            )
        } else {
            None
        }
    }

    /// Creates a configuration with default values.
    pub fn new() -> (r: Self)
        ensures
            r.min_base_fee_gwei == DEFAULT_MIN_BASE_FEE_GWEI,
    {
        GasConfig::default()
    }

    /// Creates a configuration with a specific minimum base fee.
    pub fn with_min_base_fee_gwei(min_base_fee_gwei: u64) -> (r: Self)
        ensures
            r.min_base_fee_gwei == min_base_fee_gwei,
    {
        GasConfig { min_base_fee_gwei }
    }

    /// The minimum base fee in wei (gwei * 10^9).
    pub fn min_base_fee_wei(&self) -> (r: u128)
        ensures
            r == self.min_wei(),
    {
        let gwei: u128 = self.min_base_fee_gwei as u128;
        gwei * WEI_PER_GWEI
    }

    /// Validates the gas configuration.
    pub fn validate(&self) -> (r: Result<(), String>)
        ensures
            match r {
                Ok(_) => self.flaw() is None,
                Err(m) => self.flaw() == Some(m@),
            },
    {
        if self.min_base_fee_gwei == 0 {
            return Err(String::from_str("Minimum base fee cannot be zero"));
        }
        if self.min_base_fee_gwei > MAX_REASONABLE_BASE_FEE_GWEI {
            return Err(
                text::concat5(
                    "Minimum base fee is unreasonably high: ",
                    text::decimal(self.min_base_fee_gwei as u128).as_str(),
                    " gwei (max reasonable: ",
                    text::decimal(MAX_REASONABLE_BASE_FEE_GWEI as u128).as_str(),
                    " gwei)",
                ),
            );
        }
        Ok(())
    }

    /// Whether a gas price in gwei meets the minimum requirement.
    pub fn meets_minimum_gwei(&self, gas_price_gwei: u64) -> (r: bool)
        ensures
            r == (gas_price_gwei >= self.min_base_fee_gwei),
    {
        gas_price_gwei >= self.min_base_fee_gwei
    }

    /// Whether a gas price in wei meets the minimum requirement.
    pub fn meets_minimum_wei(&self, gas_price_wei: u128) -> (r: bool)
        ensures
            r == (gas_price_wei >= self.min_wei()),
    {
        gas_price_wei >= self.min_base_fee_wei()
    }
}

/// The two minimum tests agree: a price in gwei meets the minimum exactly where
/// the same price in wei does.
pub proof fn minimum_tests_agree(config: GasConfig, gas_price_gwei: u64)
    ensures
        gas_price_gwei >= config.min_base_fee_gwei <==> gas_price_gwei * WEI_PER_GWEI
            >= config.min_wei(),
{
}

/// One gwei is a billion wei.
pub proof fn a_gwei_is_a_billion_wei(config: GasConfig)
    ensures
        config.min_wei() == config.min_base_fee_gwei * 1_000_000_000,
{
}

/// A minimum base fee is accepted from one gwei up to ten thousand.
pub proof fn accepted_minimum_fees_are_in_range(config: GasConfig)
    ensures
        config.flaw() is None <==> 1 <= config.min_base_fee_gwei <= 10_000,
{
}

} // verus!
