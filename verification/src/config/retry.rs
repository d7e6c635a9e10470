//! Retries with exponential backoff for transient wallet errors.

use crate::outside;
use crate::text;
use vstd::arithmetic::power2::*;
use vstd::prelude::*;
use vstd::string::*;

verus! {

/// Number of attempts where the configuration names none.
pub const DEFAULT_MAX_ATTEMPTS: u32 = 5;

/// First delay in milliseconds where the configuration names none.
pub const DEFAULT_INITIAL_DELAY_MS: u64 = 100;

/// Largest delay in milliseconds where the configuration names none.
pub const DEFAULT_MAX_DELAY_MS: u64 = 3000;

/// Retry configuration.
#[derive(Debug, Clone, PartialEq, Eq)]
pub struct RetryConfig {
    /// Number of attempts, the first one included.
    pub max_attempts: u32,
    /// Delay in milliseconds behind the first attempt.
    pub initial_delay_ms: u64,
    /// Cap on the delay in milliseconds.
    pub max_delay_ms: u64,
}

impl Default for RetryConfig {
    fn default() -> (r: Self)
        ensures
            r.max_attempts == DEFAULT_MAX_ATTEMPTS,
            r.initial_delay_ms == DEFAULT_INITIAL_DELAY_MS,
            r.max_delay_ms == DEFAULT_MAX_DELAY_MS,
    {
        RetryConfig {
            max_attempts: DEFAULT_MAX_ATTEMPTS,
            initial_delay_ms: DEFAULT_INITIAL_DELAY_MS,
            max_delay_ms: DEFAULT_MAX_DELAY_MS,
        }
    }
}

/// The delay with a random part: evenly spread over a quarter of the delay to
/// either side, as far as `u64` reaches.
pub open spec fn jittered_delay(delay_ms: u64, sample: u128) -> int {
    let spread = delay_ms as int / 4;
    let value = delay_ms - spread + sample as int % (2 * spread + 1);
    if value > u64::MAX {
        u64::MAX as int
    } else {
        value
    }
}

/// Shifts a delay by up to a quarter to either side, as a random sample says.
pub fn jittered(delay_ms: u64, sample: u128) -> (r: u64)
    ensures
        r == jittered_delay(delay_ms, sample),
        delay_ms - delay_ms / 4 <= r <= delay_ms + delay_ms / 4,
{
    let spread: u128 = (delay_ms / 4) as u128;
    let width: u128 = 2 * spread + 1;
    proof {
        vstd::arithmetic::div_mod::lemma_mod_bound(sample as int, width as int);
    }
    let value: u128 = delay_ms as u128 - spread + sample % width;
    if value > u64::MAX as u128 {
        u64::MAX
    } else {
        value as u64
    }
}

impl RetryConfig {
    /// The delay behind the given attempt: none behind attempt zero, then the
    /// initial delay doubled with each attempt, up to the cap.
    pub open spec fn delay_ms(self, attempt: u32) -> int {
        if attempt == 0 {
            0
        } else {
            let doubled = self.initial_delay_ms * pow2((attempt - 1) as nat);
            if doubled < self.max_delay_ms {
                doubled
            } else {
                self.max_delay_ms as int
            }
        }
    }

    /// Why the configuration is refused; `None` where it is accepted.
    pub open spec fn flaw(self) -> Option<Seq<char>> {
        if self.max_attempts == 0 {
            Some("Retry max_attempts cannot be zero"@)
        } else if self.max_delay_ms < self.initial_delay_ms {
            Some(
                "Retry max_delay_ms ("@ + text::decimal_text(self.max_delay_ms as nat)
                    + ") cannot be less than initial_delay_ms ("@ + text::decimal_text(
                    self.initial_delay_ms as nat,
                ) + ")"@,
            )
        } else {
            None
        }
    }

    /// The delay in milliseconds behind the given attempt.
    pub fn calculate_delay_ms(&self, attempt: u32) -> (r: u64)
        ensures
            r == self.delay_ms(attempt),
    {
        if attempt == 0 {
            return 0;
        }
        if self.initial_delay_ms == 0 {
            assert(0int * (pow2((attempt - 1) as nat)) == 0) by (nonlinear_arith);
            return 0;
        }
        let mut delay: u64 = self.initial_delay_ms;
        let mut done: u32 = 1;
        proof {
            lemma_pow2(0);
            lemma2_to64();
            assert(self.initial_delay_ms * 1 == self.initial_delay_ms);
        }
        while done < attempt && delay < self.max_delay_ms
            invariant
                1 <= done <= attempt,
                delay == self.initial_delay_ms * pow2((done - 1) as nat),
            decreases attempt - done,
        {
            proof {
                let initial = self.initial_delay_ms as int;
                let power = pow2((done - 1) as nat) as int;
                lemma_pow2_unfold(done as nat);
                assert(pow2(done as nat) == 2 * power);
                assert(initial * (2 * power) == 2 * (initial * power)) by (nonlinear_arith);
                if delay > u64::MAX / 2 {
                    doubling_is_monotone(initial, done as nat, (attempt - 1) as nat);
                }
            }
            if delay > u64::MAX / 2 {
                return self.max_delay_ms;
            }
            delay = delay * 2;
            done += 1;
        }
        proof {
            doubling_is_monotone(
                self.initial_delay_ms as int,
                (done - 1) as nat,
                (attempt - 1) as nat,
            );
        }
        if delay < self.max_delay_ms {
            delay
        } else {
            self.max_delay_ms
        }
    }

    /// Shifts a delay at random by up to a quarter to either side, so that
    /// retries of several requests do not coincide. The shift is left to chance,
    /// and none at all is among its outcomes; `jittered` says what each sample
    /// gives.
    pub fn add_jitter(&self, delay_ms: u64) -> (r: u64)
        ensures
            delay_ms - delay_ms / 4 <= r <= delay_ms + delay_ms / 4,
    {
        jittered(delay_ms, outside::random_uuid())
    }

    /// Validates the retry configuration.
    pub fn validate(&self) -> (r: Result<(), String>)
        ensures
            match r {
                Ok(_) => self.flaw() is None,
                Err(m) => self.flaw() == Some(m@),
            },
    {
        if self.max_attempts == 0 {
            return Err(String::from_str("Retry max_attempts cannot be zero"));
        }
        if self.max_delay_ms < self.initial_delay_ms {
            return Err(
                text::concat5(
                    "Retry max_delay_ms (",
                    text::decimal(self.max_delay_ms as u128).as_str(),
                    ") cannot be less than initial_delay_ms (",
                    text::decimal(self.initial_delay_ms as u128).as_str(),
                    ")",
                ),
            );
        }
        Ok(())
    }
}

/// A nonnegative amount doubled more often is not smaller.
proof fn doubling_is_monotone(amount: int, low: nat, high: nat)
    requires
        0 <= amount,
        low <= high,
    ensures
        amount * pow2(low) <= amount * pow2(high),
{
    if low < high {
        lemma_pow2_strictly_increases(low, high);
    }
    let a = pow2(low) as int;
    let b = pow2(high) as int;
    assert(amount * a <= amount * b) by (nonlinear_arith)
        requires
            0 <= amount,
            a <= b,
    ;
}

/// Backing off never shortens a delay and never exceeds the cap.
pub proof fn backoff_grows_to_the_cap(config: RetryConfig, earlier: u32, later: u32)
    requires
        earlier <= later,
    ensures
        config.delay_ms(earlier) <= config.delay_ms(later) <= config.max_delay_ms,
{
    if earlier > 0 {
        doubling_is_monotone(
            config.initial_delay_ms as int,
            (earlier - 1) as nat,
            (later - 1) as nat,
        );
    }
    if later > 0 {
        let power = pow2((later - 1) as nat) as int;
        assert(0 <= config.initial_delay_ms * power) by (nonlinear_arith)
            requires
                power >= 0,
        ;
    }
}

/// A retry configuration is accepted exactly where it allows an attempt and its
/// cap is not below its first delay.
pub proof fn accepted_retries_are_consistent(config: RetryConfig)
    ensures
        config.flaw() is None <==> config.max_attempts >= 1 && config.initial_delay_ms
            <= config.max_delay_ms,
{
}

/// Each delay is twice the one before it, up to the cap; the first one is the
/// initial delay, and nothing is waited for before the first attempt.
pub proof fn every_delay_is_twice_the_last(config: RetryConfig, attempt: u32)
    requires
        1 <= attempt < u32::MAX,
    ensures
        config.delay_ms(0) == 0,
        config.delay_ms(1) == if config.initial_delay_ms < config.max_delay_ms {
            config.initial_delay_ms
        } else {
            config.max_delay_ms
        },
        config.delay_ms((attempt + 1) as u32) == if 2 * config.delay_ms(attempt)
            < config.max_delay_ms {
            2 * config.delay_ms(attempt)
        } else {
            config.max_delay_ms as int
        },
{
    let initial = config.initial_delay_ms as int;
    let power = pow2((attempt - 1) as nat) as int;
    lemma2_to64();
    lemma_pow2(0);
    assert(initial * 1 == initial);
    lemma_pow2_unfold(attempt as nat);
    assert(pow2(attempt as nat) == 2 * power);
    assert(initial * (2 * power) == 2 * (initial * power)) by (nonlinear_arith);
    assert(0 <= initial * power) by (nonlinear_arith)
        requires
            0 <= initial,
            0 <= power,
    ;
}

/// Jitter moves a delay by at most a quarter to either side, and every such delay
/// that a number of milliseconds can hold comes out of some sample.
pub proof fn jitter_reaches_a_quarter_to_either_side(delay_ms: u64, sample: u128, reached: u64)
    requires
        delay_ms - delay_ms / 4 <= reached <= delay_ms + delay_ms / 4,
    ensures
        delay_ms - delay_ms / 4 <= jittered_delay(delay_ms, sample) <= delay_ms + delay_ms / 4,
        jittered_delay(delay_ms, (reached - (delay_ms - delay_ms / 4)) as u128) == reached,
{
    let spread = delay_ms as int / 4;
    vstd::arithmetic::div_mod::lemma_mod_bound(sample as int, 2 * spread + 1);
    let shift = reached - (delay_ms - spread);
    vstd::arithmetic::div_mod::lemma_small_mod(shift as nat, (2 * spread + 1) as nat);
}

} // verus!
