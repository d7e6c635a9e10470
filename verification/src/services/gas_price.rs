//! Gas price rules: the minimum floor and the effective base fee.

use crate::config::gas::GasConfig;
use crate::error::AppError;
use crate::outside;
use crate::text;
use crate::types::rpc::{Block, ElReply, JsonRpcResponse, JsonValue, RpcRequest};
use crate::types::u256::U256;
use vstd::prelude::*;
use vstd::string::*;
#[allow(unused_imports)]
use vstd::utf8::*;

verus! {

/// Milliseconds between two IGRA blocks, for which a fetched base fee stays
/// fresh.
pub const IGRA_BLOCK_TIME_MS: u64 = 1000;

/// A price as hexadecimal text without its leading `0x` and `0X` marks.
pub open spec fn unmarked(price: Seq<char>) -> Seq<char> {
    text::without_prefixes(text::without_prefixes(price, "0x"@), "0X"@)
}

/// The amount that the text of a price spells; `None` where it spells none.
pub open spec fn price_of(price: Seq<char>) -> Option<nat> {
    let digits = encode_utf8(text::without_prefix(unmarked(price), "0x"@));
    if unmarked(price).len() > 0 && digits.len() <= 64 && text::all_hex_digits(digits) {
        Some(text::hex_value(digits))
    } else {
        None
    }
}

/// The text of a price raised to a floor. A text that spells no price stays as
/// it is.
pub open spec fn floored(price: Seq<char>, floor: nat) -> Seq<char> {
    match price_of(price) {
        Some(amount) if amount < floor => "0x"@ + text::hex_number_text(floor),
        _ => price,
    }
}

/// A base fee and the time at which it was obtained.
#[derive(Debug, Clone, Copy)]
pub struct CachedFee {
    pub fee: U256,
    pub fetched_at_ms: u64,
}

/// How an effective base fee is to be had.
#[derive(Debug, Clone, Copy)]
pub enum FeeLookup {
    /// From the cache.
    Cached(U256),
    /// By fetching the latest block.
    Fetch,
}

/// The gas price rules with the last effective base fee.
#[derive(Debug)]
pub struct GasPriceService {
    /// The configured floor.
    pub config: GasConfig,
    /// The last effective base fee; all workers share one cache.
    pub cache: Option<CachedFee>,
}

impl GasPriceService {
    /// The fee in the cache, where it is younger than one block.
    pub open spec fn fresh_fee(self, now_ms: u64) -> Option<U256> {
        match self.cache {
            Some(cached) if now_ms - cached.fetched_at_ms < IGRA_BLOCK_TIME_MS => Some(cached.fee),
            _ => None,
        }
    }

    /// Whether the fee in the cache, if any, reaches the floor.
    pub open spec fn wf(self) -> bool {
        self.cache matches Some(cached) ==> cached.fee@ >= self.config.min_wei()
    }

    /// Creates the service with an empty cache.
    pub fn new(config: GasConfig) -> (r: Self)
        ensures
            r.wf(),
            r.config == config,
            r.cache is None,
    {
        GasPriceService { config, cache: None }
    }

    /// The configured minimum floor in wei.
    pub fn min_floor_wei(&self) -> (r: U256)
        ensures
            r@ == self.config.min_wei(),
    {
        U256::from_u128(self.config.min_base_fee_wei())
    }

    /// Looks for the effective base fee in the cache.
    ///
    /// Times are milliseconds of one monotonic clock.
    pub fn get_effective_base_fee(&self, now_ms: u64) -> (r: FeeLookup)
        ensures
            r == match self.fresh_fee(now_ms) {
                Some(fee) => FeeLookup::Cached(fee),
                None => FeeLookup::Fetch,
            },
            self.wf() ==> (r matches FeeLookup::Cached(fee) ==> fee@ >= self.config.min_wei()),
    {
        match &self.cache {
            Some(cached) => {
                if now_ms < cached.fetched_at_ms || now_ms - cached.fetched_at_ms
                    < IGRA_BLOCK_TIME_MS {
                    FeeLookup::Cached(cached.fee)
                } else {
                    FeeLookup::Fetch
                }
            },
            None => FeeLookup::Fetch,
        }
    }

    /// The request for the latest block, without its transactions, by which a
    /// base fee is fetched.
    pub fn latest_block_request() -> (r: RpcRequest)
        ensures
            r.jsonrpc@ == "2.0"@,
            r.method@ == "eth_getBlockByNumber"@,
            r.params@.len() == 2,
            r.params@[0] matches JsonValue::String(s) && s@ == "latest"@,
            r.params@[1] matches JsonValue::Other(s) && s@ == "false"@,
            r.id matches JsonValue::Other(s) && s@ == "1"@,
    {
        RpcRequest {
            jsonrpc: String::from_str("2.0"),
            method: String::from_str("eth_getBlockByNumber"),
            params: vec![
                JsonValue::String(String::from_str("latest")),
                JsonValue::Other(String::from_str("false")),
            ],
            id: JsonValue::Other(String::from_str("1")),
        }
    }

    /// Reads the base fee out of the reply with the latest block: the block, or
    /// the message with which the reply could not be parsed.
    pub fn fetch_network_base_fee(
        &self,
        response: Result<JsonRpcResponse<Block>, String>,
    ) -> (r: Result<U256, AppError>)
        ensures
            match response {
                Ok(response) => match response.result.base_fee_per_gas {
                    Some(fee) => r == Ok::<U256, AppError>(fee),
                    None => r matches Err(AppError::Internal(m)) && m@
                        == "Block missing baseFeePerGas field - EIP-1559 not active"@,
                },
                Err(e) => r matches Err(AppError::Internal(m)) && m@
                    == "Failed to parse block response: "@ + e@,
            },
    {
        match response {
            Ok(response) => match response.result.base_fee_per_gas {
                Some(fee) => Ok(fee),
                None => Err(
                    AppError::Internal(
                        String::from_str("Block missing baseFeePerGas field - EIP-1559 not active"),
                    ),
                ),
            },
            Err(e) => Err(
                AppError::Internal(text::concat2("Failed to parse block response: ", e.as_str())),
            ),
        }
    }

    /// Whether a fetched base fee leads from one state to another with `r` as the
    /// effective base fee.
    pub open spec fn takes_fee(
        self,
        network_base_fee: Result<U256, AppError>,
        now_ms: u64,
        after: Self,
        r: Result<U256, AppError>,
    ) -> bool {
        &&& after.config == self.config
        &&& match network_base_fee {
            Ok(network) => {
                &&& r matches Ok(fee)
                &&& fee@ == if network@ < self.config.min_wei() {
                    self.config.min_wei()
                } else {
                    network@
                }
                &&& after.cache == Some(CachedFee { fee, fetched_at_ms: now_ms })
            },
            Err(e) => r == Err::<U256, AppError>(e) && after.cache == self.cache,
        }
    }

    /// Turns a fetched base fee into the effective one and keeps it: the larger
    /// of the base fee and the floor. A failed fetch changes nothing.
    pub fn base_fee_fetched(&mut self, network_base_fee: Result<U256, AppError>, now_ms: u64) -> (r:
        Result<U256, AppError>)
        ensures
            old(self).takes_fee(network_base_fee, now_ms, *final(self), r),
            old(self).wf() ==> final(self).wf(),
    {
        match network_base_fee {
            Ok(network) => {
                let effective_base_fee = network.max(self.min_floor_wei());
                self.cache = Some(CachedFee { fee: effective_base_fee, fetched_at_ms: now_ms });
                Ok(effective_base_fee)
            },
            Err(e) => Err(e),
        }
    }

    /// Floors the gas price in a reply to `eth_gasPrice`, in place.
    ///
    /// A result that is no string or spells no price is left unchanged, and so
    /// is a price that reaches the floor.
    pub fn floor_gas_price_value(&self, response: &mut ElReply)
        ensures
            match old(response).result {
                Some(JsonValue::String(price)) => final(response).result matches Some(
                    JsonValue::String(s),
                ) && s@ == floored(price@, self.config.min_wei()),
                _ => *final(response) == *old(response),
            },
    {
        proof {
            reveal_strlit("0x");
            reveal_strlit("0X");
        }
        let price = match &response.result {
            Some(JsonValue::String(s)) => s.clone(),
            _ => return,
        };
        let trimmed = text::trim_prefixes(text::trim_prefixes(price.as_str(), "0x"), "0X");
        if trimmed.unicode_len() == 0 {
            return;
        }
        let price_wei = match outside::parse_hex_u256(trimmed) {
            Some(limbs) => U256 { limbs },
            None => return,
        };
        let min_floor_wei = self.min_floor_wei();
        if price_wei.less_than(&min_floor_wei) {
            let digits = text::hex_number(self.config.min_base_fee_wei());
            response.result = Some(JsonValue::String(text::concat2("0x", digits.as_str())));
        }
    }
}

/// A fee that was fetched is used for one block and no longer: until the block
/// time has passed it is taken from the cache, from then on it is fetched anew.
pub proof fn fetched_fees_last_one_block(
    service: GasPriceService,
    fee: U256,
    fetched_at_ms: u64,
    now_ms: u64,
)
    requires
        service.cache == Some(CachedFee { fee, fetched_at_ms }),
    ensures
        service.fresh_fee(now_ms) == if now_ms < fetched_at_ms + IGRA_BLOCK_TIME_MS {
            Some(fee)
        } else {
            None
        },
{
}

/// Dropping repeated prefixes changes nothing where there is none.
proof fn no_prefixes_to_drop(s: Seq<char>, prefix: Seq<char>)
    requires
        !prefix.is_prefix_of(s),
    ensures
        text::without_prefixes(s, prefix) == s,
        text::without_prefix(s, prefix) == s,
{
}

/// The text that the floor is written as spells the floor.
pub proof fn floor_text_spells_the_floor(config: GasConfig)
    ensures
        price_of("0x"@ + text::hex_number_text(config.min_wei())) == Some(config.min_wei()),
{
    let n = config.min_wei();
    let digits = text::hex_number_text(n);
    let price = "0x"@ + digits;
    reveal_strlit("0x");
    reveal_strlit("0X");
    assert(n < vstd::arithmetic::power::pow(16, 24)) by {
        reveal_with_fuel(vstd::arithmetic::power::pow, 25);
    }
    text::hex_number_text_round_trip(n, 24);
    assert("0x"@.is_prefix_of(price)) by {
        assert(price.subrange(0, 2) =~= "0x"@);
    }
    assert(price.skip(2) =~= digits);
    assert(!"0x"@.is_prefix_of(digits)) by {
        if "0x"@.is_prefix_of(digits) {
            assert(digits.subrange(0, 2)[1] == digits[1]);
        }
    }
    assert(!"0X"@.is_prefix_of(digits)) by {
        if "0X"@.is_prefix_of(digits) {
            assert(digits.subrange(0, 2)[1] == digits[1]);
        }
    }
    no_prefixes_to_drop(digits, "0x"@);
    no_prefixes_to_drop(digits, "0X"@);
    assert(text::without_prefixes(price, "0x"@) == digits);
}

/// A floored price is the larger of the price and the floor, so no client is
/// told a price below the floor. A text that spells no price is passed on.
pub proof fn floored_prices_reach_the_floor(price: Seq<char>, config: GasConfig)
    ensures
        match price_of(price) {
            Some(amount) => price_of(floored(price, config.min_wei())) == Some(
                if amount < config.min_wei() {
                    config.min_wei()
                } else {
                    amount
                },
            ),
            None => floored(price, config.min_wei()) == price,
        },
{
    floor_text_spells_the_floor(config);
}

/// Flooring twice is flooring once.
pub proof fn flooring_is_idempotent(price: Seq<char>, config: GasConfig)
    ensures
        floored(floored(price, config.min_wei()), config.min_wei()) == floored(
            price,
            config.min_wei(),
        ),
{
    floor_text_spells_the_floor(config);
}

/// The text of every 256-bit amount, as numbers are written on the wire, spells
/// that amount; so does the text with a capital mark or with none.
pub proof fn amount_texts_spell_their_amount(n: nat)
    requires
        n < vstd::arithmetic::power::pow(16, 64),
    ensures
        price_of("0x"@ + text::hex_number_text(n)) == Some(n),
        price_of("0X"@ + text::hex_number_text(n)) == Some(n),
        price_of(text::hex_number_text(n)) == Some(n),
{
    let capital = "0X"@ + text::hex_number_text(n);
    let digits = text::hex_number_text(n);
    let price = "0x"@ + digits;
    reveal_strlit("0x");
    reveal_strlit("0X");
    text::hex_number_text_round_trip(n, 64);
    assert("0x"@.is_prefix_of(price)) by {
        assert(price.subrange(0, 2) =~= "0x"@);
    }
    assert(price.skip(2) =~= digits);
    assert(!"0x"@.is_prefix_of(digits)) by {
        if "0x"@.is_prefix_of(digits) {
            assert(digits.subrange(0, 2)[1] == digits[1]);
        }
    }
    assert(!"0X"@.is_prefix_of(digits)) by {
        if "0X"@.is_prefix_of(digits) {
            assert(digits.subrange(0, 2)[1] == digits[1]);
        }
    }
    no_prefixes_to_drop(digits, "0x"@);
    no_prefixes_to_drop(digits, "0X"@);
    assert(text::without_prefixes(price, "0x"@) == digits);
    assert(capital.subrange(0, 2) =~= "0X"@);
    assert(capital.skip(2) =~= digits);
    assert(!"0x"@.is_prefix_of(capital)) by {
        if "0x"@.is_prefix_of(capital) {
            assert(capital.subrange(0, 2)[1] == 'x');
        }
    }
    no_prefixes_to_drop(capital, "0x"@);
    assert(text::without_prefixes(capital, "0X"@) == digits);
}

/// Nothing but hexadecimal digits behind the marks spells an amount: where the
/// digits are missing, too many, or not all hexadecimal, there is none.
pub proof fn other_texts_spell_no_amount(price: Seq<char>)
    ensures
        price_of(""@) is None,
        price_of("0x"@) is None,
        price_of(price) is Some ==> {
            let digits = encode_utf8(text::without_prefix(unmarked(price), "0x"@));
            &&& digits.len() <= 64
            &&& text::all_hex_digits(digits)
            &&& text::hex_value(digits) == price_of(price)->0
        },
{
    reveal_strlit("");
    reveal_strlit("0x");
    reveal_strlit("0X");
    no_prefixes_to_drop(""@, "0x"@);
    no_prefixes_to_drop(""@, "0X"@);
    assert("0x"@.subrange(0, 2) =~= "0x"@);
    assert("0x"@.skip(2) =~= ""@);
    assert(text::without_prefixes("0x"@, "0x"@) == text::without_prefixes(""@, "0x"@));
}

/// Marks in front of a price do not change it, however many there are.
pub proof fn repeated_marks_do_not_matter(price: Seq<char>)
    ensures
        price_of("0x"@ + price) == price_of(price),
{
    reveal_strlit("0x");
    text::dropped_prefixes_do_not_matter(price, "0x"@);
}

/// A floored price is at least the floor and at least the price, and it is one
/// of the two.
pub proof fn floored_prices_are_the_larger_of_two(price: Seq<char>, config: GasConfig)
    requires
        price_of(price) is Some,
    ensures
        price_of(floored(price, config.min_wei())) matches Some(told) && {
            &&& told >= config.min_wei()
            &&& told >= price_of(price)->0
            &&& told == config.min_wei() || told == price_of(price)->0
        },
        price_of(price)->0 >= config.min_wei() ==> floored(price, config.min_wei()) == price,
{
    floor_text_spells_the_floor(config);
}

/// The effective base fee is the larger of the network's base fee and the floor.
/// It is what the next lookups give until a block time has passed, and from then
/// on it is fetched anew. A failed fetch changes nothing.
pub proof fn fetched_fees_are_floored_and_kept_for_a_block(
    before: GasPriceService,
    network_base_fee: Result<U256, AppError>,
    now_ms: u64,
    after: GasPriceService,
    r: Result<U256, AppError>,
    later_ms: u64,
)
    requires
        before.takes_fee(network_base_fee, now_ms, after, r),
    ensures
        r is Ok <==> network_base_fee is Ok,
        network_base_fee matches Ok(network) ==> {
            let fee = r->Ok_0;
            &&& fee@ >= network@
            &&& fee@ >= before.config.min_wei()
            &&& fee@ == network@ || fee@ == before.config.min_wei()
            &&& now_ms <= later_ms < now_ms + 1000 ==> after.fresh_fee(later_ms) == Some(fee)
            &&& later_ms >= now_ms + 1000 ==> after.fresh_fee(later_ms) is None
        },
        network_base_fee is Err ==> after == before,
        after.config == before.config,
{
}

} // verus!
