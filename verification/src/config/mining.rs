//! Mining configuration.

use crate::error::AppError;
use crate::outside;
use crate::text;
use std::time::Duration;
use vstd::arithmetic::power::*;
use vstd::prelude::*;
use vstd::string::*;
#[allow(unused_imports)]
use vstd::utf8::*;

verus! {

/// Seconds to mine where the configuration names none.
pub const DEFAULT_TIMEOUT_SECONDS: u64 = 10;

/// Number of bytes of a Kaspa hash.
pub const HASH_SIZE: usize = 32;

/// The longest accepted mining time, in seconds.
pub const MAX_TIMEOUT_SECONDS: u64 = 300;

/// The prefix where the configuration names none.
pub open spec fn default_prefix() -> Seq<u8> {
    seq![0x97u8, 0xb1u8]
}

/// The prefix that a text spells, after one optional `0x`, or why it spells none.
pub open spec fn parsed_prefix(hex_prefix: Seq<char>) -> Result<Seq<u8>, Seq<char>> {
    let clean = text::without_prefix(hex_prefix, "0x"@);
    let digits = encode_utf8(clean);
    if digits.len() % 2 != 0 {
        Err("Hex prefix must have even number of characters"@)
    } else if !text::all_hex_digits(digits) {
        Err("Invalid hex prefix: "@ + outside::hex_error_text(clean))
    } else {
        Ok(text::hex_decoded(digits))
    }
}

/// Mining configuration.
#[derive(Debug, Clone, PartialEq, Eq)]
pub struct MiningConfig {
    /// Required prefix for mining: a hash must start with these bytes.
    pub required_prefix: Vec<u8>,
    /// Mining timeout in seconds.
    pub timeout_seconds: u64,
}

impl Default for MiningConfig {
    fn default() -> (r: Self)
        ensures
            r.required_prefix@ == default_prefix(),
            r.timeout_seconds == DEFAULT_TIMEOUT_SECONDS,
    {
        let mut required_prefix: Vec<u8> = Vec::new();
        required_prefix.push(0x97);
        required_prefix.push(0xb1);
        assert(required_prefix@ =~= default_prefix());
        MiningConfig { required_prefix, timeout_seconds: DEFAULT_TIMEOUT_SECONDS }
    }
}

impl MiningConfig {
    /// Why the configuration is refused; `None` where it is accepted.
    pub open spec fn flaw(self) -> Option<Seq<char>> {
        if self.required_prefix@.len() == 0 {
            Some("Mining required_prefix cannot be empty"@)
        } else if self.required_prefix@.len() > HASH_SIZE {
            Some(
                "Mining required_prefix cannot exceed "@ + text::decimal_text(HASH_SIZE as nat)
                    + " bytes (Kaspa hash size), got "@ + text::decimal_text(
                    self.required_prefix@.len(),
                ) + " bytes"@,
            )
        } else if self.timeout_seconds == 0 || self.timeout_seconds > MAX_TIMEOUT_SECONDS {
            Some(
                "Mining timeout_seconds must be between 1-300 seconds, got "@
                    + text::decimal_text(self.timeout_seconds as nat) + " seconds"@,
            )
        } else {
            None
        }
    }

    /// Whether the difficulty of the prefix fits a machine word. A length that
    /// does not fit `u32` counts as zero.
    pub open spec fn difficulty_fits(self) -> bool {
        self.required_prefix@.len() <= 7 || self.required_prefix@.len() > u32::MAX
    }

    /// The number of hashes among which one is expected to match.
    pub open spec fn difficulty(self) -> int {
        if self.required_prefix@.len() > u32::MAX {
            1
        } else {
            pow(256, self.required_prefix@.len())
        }
    }

    /// The seconds in which half the difficulty is worked off, at least one.
    pub open spec fn mining_seconds(self, hash_rate: u64) -> int {
        if hash_rate == 0 {
            u64::MAX as int
        } else {
            let seconds = self.difficulty() / 2 / (hash_rate as int);
            if seconds < 1 {
                1
            } else {
                seconds
            }
        }
    }

    /// Creates a configuration with default values.
    pub fn new() -> (r: Self)
        ensures
            r.required_prefix@ == default_prefix(),
            r.timeout_seconds == DEFAULT_TIMEOUT_SECONDS,
    {
        MiningConfig::default()
    }

    /// Creates a configuration with a specific prefix and timeout.
    pub fn with_settings(required_prefix: Vec<u8>, timeout_seconds: u64) -> (r: Self)
        ensures
            r.required_prefix == required_prefix,
            r.timeout_seconds == timeout_seconds,
    {
        MiningConfig { required_prefix, timeout_seconds }
    }

    /// Creates a configuration with a prefix given as hexadecimal text.
    pub fn with_hex_prefix(hex_prefix: &str, timeout_seconds: u64) -> (r: Result<Self, String>)
        ensures
            match parsed_prefix(hex_prefix@) {
                Ok(prefix) => r matches Ok(c) && c.required_prefix@ == prefix && c.timeout_seconds
                    == timeout_seconds,
                Err(reason) => r matches Err(m) && m@ == reason,
            },
    {
        match Self::parse_hex_prefix(hex_prefix) {
            Ok(prefix) => Ok(Self::with_settings(prefix, timeout_seconds)),
            Err(m) => Err(m),
        }
    }

    /// Reads a prefix from hexadecimal text, with or without `0x`.
    pub fn parse_hex_prefix(hex_prefix: &str) -> (r: Result<Vec<u8>, String>)
        ensures
            match parsed_prefix(hex_prefix@) {
                Ok(prefix) => r matches Ok(bytes) && bytes@ == prefix,
                Err(reason) => r matches Err(m) && m@ == reason,
            },
    {
        let clean_hex = text::strip_prefix(hex_prefix, "0x");
        if clean_hex.as_bytes().len() % 2 != 0 {
            return Err(String::from_str("Hex prefix must have even number of characters"));
        }
        match outside::hex_decode(clean_hex) {
            Ok(bytes) => Ok(bytes),
            Err(e) => Err(text::concat2("Invalid hex prefix: ", e.as_str())),
        }
    }

    /// Validates the mining configuration.
    pub fn validate(&self) -> (r: Result<(), AppError>)
        ensures
            match self.flaw() {
                Some(reason) => r matches Err(AppError::ConfigError(m)) && m@ == reason,
                None => r is Ok,
            },
    {
        if self.required_prefix.len() == 0 {
            return Err(
                AppError::ConfigError(String::from_str("Mining required_prefix cannot be empty")),
            );
        }
        if self.required_prefix.len() > HASH_SIZE {
            return Err(
                AppError::ConfigError(
                    text::concat5(
                        "Mining required_prefix cannot exceed ",
                        text::decimal(HASH_SIZE as u128).as_str(),
                        " bytes (Kaspa hash size), got ",
                        text::decimal(self.required_prefix.len() as u128).as_str(),
                        " bytes",
                    ),
                ),
            );
        }
        if self.timeout_seconds == 0 || self.timeout_seconds > MAX_TIMEOUT_SECONDS {
            return Err(
                AppError::ConfigError(
                    text::concat3(
                        "Mining timeout_seconds must be between 1-300 seconds, got ",
                        text::decimal(self.timeout_seconds as u128).as_str(),
                        " seconds",
                    ),
                ),
            );
        }
        Ok(())
    }

    /// The timeout as a `Duration`.
    pub fn timeout_duration(&self) -> (r: Duration)
        ensures
            r == outside::duration_of(self.timeout_seconds, 0),
    {
        outside::duration(self.timeout_seconds, 0)
    }

    /// The required prefix as hexadecimal text.
    pub fn prefix_hex(&self) -> (r: String)
        ensures
            r@ == text::hex_text(self.required_prefix@),
    {
        outside::hex_encode(self.required_prefix.as_slice())
    }

    /// The required prefix bytes.
    pub fn prefix_bytes(&self) -> (r: &[u8])
        ensures
            r@ == self.required_prefix@,
    {
        self.required_prefix.as_slice()
    }

    /// The length of the prefix.
    pub fn prefix_length(&self) -> (r: usize)
        ensures
            r == self.required_prefix@.len(),
    {
        self.required_prefix.len()
    }

    /// Whether a hash starts with the required prefix.
    pub fn hash_matches_prefix(&self, hash: &[u8]) -> (r: bool)
        ensures
            r == self.required_prefix@.is_prefix_of(hash@),
    {
        if hash.len() < self.required_prefix.len() {
            return false;
        }
        let mut i: usize = 0;
        while i < self.required_prefix.len()
            invariant
                i <= self.required_prefix@.len() <= hash@.len(),
                forall|j: int| 0 <= j < i ==> self.required_prefix@[j] == hash@[j],
            decreases self.required_prefix@.len() - i,
        {
            if self.required_prefix[i] != hash[i] {
                assert(hash@.subrange(0, self.required_prefix@.len() as int)[i as int]
                    == hash@[i as int]);
                return false;
            }
            i += 1;
        }
        assert(hash@.subrange(0, self.required_prefix@.len() as int) =~= self.required_prefix@);
        true
    }

    /// The mining difficulty: each byte of the prefix multiplies it by 256.
    pub fn difficulty_estimate(&self) -> (r: u64)
        requires
            self.difficulty_fits(),
        ensures
            r == self.difficulty(),
    {
        proof {
            reveal_with_fuel(pow, 9);
        }
        let length: u64 = self.required_prefix.len() as u64;
        if length == 0 || length > u32::MAX as u64 {
            1
        } else if length == 1 {
            0x100
        } else if length == 2 {
            0x1_0000
        } else if length == 3 {
            0x100_0000
        } else if length == 4 {
            0x1_0000_0000
        } else if length == 5 {
            0x100_0000_0000
        } else if length == 6 {
            0x1_0000_0000_0000
        } else {
            0x100_0000_0000_0000
        }
    }

    /// Estimates the mining time from a hash rate in hashes per second.
    pub fn estimated_mining_time(&self, hash_rate: u64) -> (r: Duration)
        requires
            hash_rate == 0 || self.difficulty_fits(),
        ensures
            r == outside::duration_of(self.mining_seconds(hash_rate) as u64, 0),
    {
        if hash_rate == 0 {
            return outside::duration(u64::MAX, 0);
        }
        let expected_attempts: u64 = self.difficulty_estimate() / 2;
        let seconds: u64 = expected_attempts / hash_rate;
        if seconds < 1 {
            outside::duration(1, 0)
        } else {
            outside::duration(seconds, 0)
        }
    }
}

/// A prefix survives being written and read again, with or without `0x` in
/// front.
pub proof fn prefix_text_round_trips(prefix: Seq<u8>)
    ensures
        parsed_prefix(text::hex_text(prefix)) == Ok::<Seq<u8>, Seq<char>>(prefix),
        parsed_prefix("0x"@ + text::hex_text(prefix)) == Ok::<Seq<u8>, Seq<char>>(prefix),
{
    let digits = text::hex_text(prefix);
    reveal_strlit("0x");
    text::hex_text_round_trip(prefix);
    assert(!"0x"@.is_prefix_of(digits)) by {
        if "0x"@.is_prefix_of(digits) {
            assert(digits.subrange(0, 2)[1] == digits[1]);
            assert(digits[1] == text::digit_char(prefix[0] as int % 16));
        }
    }
    assert("0x"@.is_prefix_of("0x"@ + digits)) by {
        assert(("0x"@ + digits).subrange(0, 2) =~= "0x"@);
    }
    assert(("0x"@ + digits).skip(2) =~= digits);
}

/// A longer required prefix is matched by fewer hashes: whatever matches an
/// extension of a prefix matches the prefix.
pub proof fn longer_prefixes_are_stricter(shorter: MiningConfig, longer: MiningConfig, hash: Seq<u8>)
    requires
        shorter.required_prefix@.is_prefix_of(longer.required_prefix@),
        longer.required_prefix@.is_prefix_of(hash),
    ensures
        shorter.required_prefix@.is_prefix_of(hash),
{
    let n = shorter.required_prefix@.len() as int;
    let m = longer.required_prefix@.len() as int;
    assert(hash.subrange(0, n) =~= hash.subrange(0, m).subrange(0, n));
}

/// A mining configuration is accepted exactly where its prefix has from one byte
/// to as many as a hash has, and its time is from one second to five minutes.
pub proof fn accepted_prefixes_fit_a_hash(config: MiningConfig)
    ensures
        config.flaw() is None <==> 1 <= config.required_prefix@.len() <= 32 && 1
            <= config.timeout_seconds <= 300,
{
}

/// One more byte of prefix makes mining 256 times as hard.
pub proof fn every_byte_multiplies_the_difficulty(shorter: MiningConfig, longer: MiningConfig)
    requires
        longer.required_prefix@.len() == shorter.required_prefix@.len() + 1,
        longer.required_prefix@.len() <= u32::MAX,
    ensures
        longer.difficulty() == 256 * shorter.difficulty(),
        shorter.required_prefix@.len() == 0 ==> shorter.difficulty() == 1,
{
    reveal_with_fuel(pow, 2);
}

/// The estimated time is the whole seconds that it takes to work off half the
/// difficulty, and at least one.
pub proof fn estimated_times_work_off_half_the_difficulty(config: MiningConfig, hash_rate: u64)
    requires
        hash_rate > 0,
    ensures
        config.mining_seconds(hash_rate) >= 1,
        config.difficulty() / 2 < (config.mining_seconds(hash_rate) + 1) * hash_rate,
        config.mining_seconds(hash_rate) > 1 ==> config.mining_seconds(hash_rate) * hash_rate
            <= config.difficulty() / 2,
{
    let half = config.difficulty() / 2;
    let rate = hash_rate as int;
    let q = half / rate;
    vstd::arithmetic::div_mod::lemma_fundamental_div_mod(half, rate);
    vstd::arithmetic::div_mod::lemma_mod_bound(half, rate);
    assert(rate * q == q * rate) by (nonlinear_arith);
    assert((q + 1) * rate == q * rate + rate) by (nonlinear_arith);
    let seconds = config.mining_seconds(hash_rate);
    assert((q + 1) * rate <= (seconds + 1) * rate) by (nonlinear_arith)
        requires
            q <= seconds,
            rate > 0,
    ;
}

/// A text that is read as a prefix has two digits per byte, after one optional
/// `0x`, and no other text is read.
pub proof fn read_prefixes_have_two_digits_per_byte(value: Seq<char>)
    ensures
        parsed_prefix(value) is Ok <==> {
            let digits = encode_utf8(text::without_prefix(value, "0x"@));
            digits.len() % 2 == 0 && text::all_hex_digits(digits)
        },
        parsed_prefix(value) matches Ok(prefix) ==> 2 * prefix.len() == encode_utf8(
            text::without_prefix(value, "0x"@),
        ).len(),
{
}

} // verus!
