//! The whole configuration of the provider.

use crate::config::gas::GasConfig;
use crate::config::lane::LaneConfig;
use crate::config::mining::MiningConfig;
use crate::config::proxy::ProxyConfig;
use crate::config::retry::RetryConfig;
use crate::config::security::SecurityConfig;
use crate::config::server::ServerConfig;
use crate::config::wallet::WalletConfig;
use crate::error::AppError;
use crate::reasons;
use crate::text;
use vstd::prelude::*;
use vstd::string::*;

verus! {

/// The configuration of the provider, composed of one part per concern.
#[derive(Debug, Clone)]
pub struct AppConfig {
    /// HTTP server configuration.
    pub server: ServerConfig,
    /// Execution layer proxy configuration.
    pub proxy: ProxyConfig,
    /// The primary wallet.
    pub wallet: WalletConfig,
    /// Further wallets, which share the load with the primary one.
    pub wallets: Vec<WalletConfig>,
    /// Security and whitelist configuration.
    pub security: SecurityConfig,
    /// Mining configuration.
    pub mining: MiningConfig,
    /// Lane enforcement configuration.
    pub lane: LaneConfig,
    /// Gas pricing configuration.
    pub gas: GasConfig,
    /// Retry configuration for transient errors.
    pub retry: RetryConfig,
}

/// The EL URL alone.
#[derive(Debug, Clone, PartialEq, Eq)]
pub struct ElConfig {
    pub url: String,
}

impl Default for ElConfig {
    fn default() -> (r: Self)
        ensures
            r.url@.len() == 0,
    {
        ElConfig { url: String::new() }
    }
}

impl From<ElConfig> for ProxyConfig {
    fn from(el_config: ElConfig) -> (r: ProxyConfig)
        ensures
            r.el_url == el_config.url,
            r.el_ws_url is None,
            r.timeout_seconds == crate::config::proxy::DEFAULT_TIMEOUT_SECONDS,
            r.max_retries == crate::config::proxy::DEFAULT_MAX_RETRIES,
            r.retry_delay_ms == crate::config::proxy::DEFAULT_RETRY_DELAY_MS,
    {
        ProxyConfig::with_el_url(el_config.url)
    }
}

impl vstd::std_specs::convert::FromSpecImpl<ElConfig> for ProxyConfig {
    open spec fn obeys_from_spec() -> bool {
        true
    }

    open spec fn from_spec(el_config: ElConfig) -> ProxyConfig {
        ProxyConfig {
            el_url: el_config.url,
            el_ws_url: None,
            timeout_seconds: crate::config::proxy::DEFAULT_TIMEOUT_SECONDS,
            max_retries: crate::config::proxy::DEFAULT_MAX_RETRIES,
            retry_delay_ms: crate::config::proxy::DEFAULT_RETRY_DELAY_MS,
        }
    }
}

/// The environment variables that override the configuration file, each with the
/// setting that it overrides, in the order in which they are applied.
pub open spec fn overrides() -> Seq<(Seq<char>, Seq<char>)> {
    seq![
        ("SERVER_HOST"@, "server.host"@),
        ("SERVER_PORT"@, "server.port"@),
        ("EL_URL"@, "proxy.el_url"@),
        ("EL_WS_URL"@, "proxy.el_ws_url"@),
        ("PROXY_TIMEOUT_SECONDS"@, "proxy.timeout_seconds"@),
        ("PROXY_MAX_RETRIES"@, "proxy.max_retries"@),
        ("PROXY_RETRY_DELAY_MS"@, "proxy.retry_delay_ms"@),
        ("WALLET_DAEMON_URI"@, "wallet.wallet_daemon_uri"@),
        ("WALLET_TO_ADDRESS"@, "wallet.to_address"@),
        ("SECURITY_ENABLE_WHITELIST"@, "security.enable_whitelist"@),
        ("READ_ONLY"@, "security.read_only"@),
        ("TX_ID_PREFIX"@, "mining.tx_id_prefix"@),
        ("MINING_TIMEOUT_SECONDS"@, "mining.timeout_seconds"@),
        ("IGRA_LANE_ID"@, "lane.lane_id"@),
        ("LANE_ENFORCEMENT_DISABLED"@, "lane.enforcement_disabled"@),
        ("MIN_PROTOCOL_FEE_PER_GAS_GWEI"@, "gas.min_protocol_fee_per_gas_gwei"@),
        ("RETRY_MAX_ATTEMPTS"@, "retry.max_attempts"@),
        ("RETRY_INITIAL_DELAY_MS"@, "retry.initial_delay_ms"@),
        ("RETRY_MAX_DELAY_MS"@, "retry.max_delay_ms"@),
    ]
}

/// The environment variables that override the configuration file, each with the
/// setting that it overrides.
pub fn env_mappings() -> (r: Vec<(&'static str, &'static str)>)
    ensures
        r@.len() == overrides().len(),
        forall|i: int|
            0 <= i < r@.len() ==> ((#[trigger] r@[i]).0@, r@[i].1@) == overrides()[i],
{
    vec![
        ("SERVER_HOST", "server.host"),
        ("SERVER_PORT", "server.port"),
        ("EL_URL", "proxy.el_url"),
        ("EL_WS_URL", "proxy.el_ws_url"),
        ("PROXY_TIMEOUT_SECONDS", "proxy.timeout_seconds"),
        ("PROXY_MAX_RETRIES", "proxy.max_retries"),
        ("PROXY_RETRY_DELAY_MS", "proxy.retry_delay_ms"),
        ("WALLET_DAEMON_URI", "wallet.wallet_daemon_uri"),
        ("WALLET_TO_ADDRESS", "wallet.to_address"),
        ("SECURITY_ENABLE_WHITELIST", "security.enable_whitelist"),
        ("READ_ONLY", "security.read_only"),
        ("TX_ID_PREFIX", "mining.tx_id_prefix"),
        ("MINING_TIMEOUT_SECONDS", "mining.timeout_seconds"),
        ("IGRA_LANE_ID", "lane.lane_id"),
        ("LANE_ENFORCEMENT_DISABLED", "lane.enforcement_disabled"),
        ("MIN_PROTOCOL_FEE_PER_GAS_GWEI", "gas.min_protocol_fee_per_gas_gwei"),
        ("RETRY_MAX_ATTEMPTS", "retry.max_attempts"),
        ("RETRY_INITIAL_DELAY_MS", "retry.initial_delay_ms"),
        ("RETRY_MAX_DELAY_MS", "retry.max_delay_ms"),
    ]
}

/// A reason under the name of the part that it is about.
pub open spec fn within(part: Seq<char>, reason: Option<Seq<char>>) -> Option<Seq<char>> {
    match reason {
        Some(m) => Some(part + m),
        None => None,
    }
}

/// The message under which a part's configuration error is reported.
pub open spec fn as_config_error(reason: Option<Seq<char>>) -> Option<Seq<char>> {
    within("Configuration error: "@, reason)
}

/// The first flaw among the further wallets.
pub open spec fn wallets_flaw(wallets: Seq<WalletConfig>) -> Option<Seq<char>> {
    reasons::first_reason(wallets.map_values(|w: WalletConfig| w.flaw()))
}

/// Validates the further wallets, stopping at the first flawed one.
fn validate_wallets(wallets: &Vec<WalletConfig>) -> (r: Result<(), String>)
    ensures
        match r {
            Ok(_) => wallets_flaw(wallets@) is None,
            Err(m) => wallets_flaw(wallets@) == Some(m@),
        },
{
    let ghost flaws = wallets@.map_values(|w: WalletConfig| w.flaw());
    let mut i: usize = 0;
    while i < wallets.len()
        invariant
            i <= wallets@.len(),
            flaws == wallets@.map_values(|w: WalletConfig| w.flaw()),
            forall|j: int| 0 <= j < i ==> #[trigger] flaws[j] is None,
        decreases wallets@.len() - i,
    {
        assert(flaws[i as int] == wallets@[i as int].flaw());
        match wallets[i].validate() {
            Ok(_) => {},
            Err(m) => {
                proof {
                    reasons::first_reason_is_at(flaws, i as int);
                }
                return Err(m);
            },
        }
        i += 1;
    }
    proof {
        reasons::first_reason_is_none(flaws);
    }
    Ok(())
}

impl AppConfig {
    /// Why the configuration is refused; `None` where it is accepted. The first
    /// flawed part gives the reason.
    pub open spec fn flaw(self) -> Option<Seq<char>> {
        let writes = !self.security.read_only;
        if self.server.flaw() is Some {
            within("Server config: "@, self.server.flaw())
        } else if self.proxy.flaw() is Some {
            within("Proxy config: "@, self.proxy.flaw())
        } else if writes && self.wallet.flaw() is Some {
            within("Wallet config: "@, self.wallet.flaw())
        } else if writes && wallets_flaw(self.wallets@) is Some {
            within("Wallet config: "@, wallets_flaw(self.wallets@))
        } else if self.mining.flaw() is Some {
            within("Mining config: "@, as_config_error(self.mining.flaw()))
        } else if writes && self.lane.flaw() is Some {
            within("Lane config: "@, self.lane.flaw())
        } else if self.gas.flaw() is Some {
            within("Gas config: "@, self.gas.flaw())
        } else {
            within("Retry config: "@, self.retry.flaw())
        }
    }

    /// Validates every part of the configuration.
    ///
    /// Wallet and lane settings govern the submission of transactions only. A
    /// read-only deployment cannot submit, so both are skipped there.
    pub fn validate_config(config: &AppConfig) -> (r: Result<(), AppError>)
        ensures
            match config.flaw() {
                Some(reason) => r matches Err(AppError::ConfigError(m)) && m@ == reason,
                None => r is Ok,
            },
    {
        let read_only = config.security.is_read_only();
        match config.server.validate() {
            Ok(_) => {},
            Err(e) => return Err(
                AppError::ConfigError(text::concat2("Server config: ", e.as_str())),
            ),
        }
        match config.proxy.validate() {
            Ok(_) => {},
            Err(e) => return Err(
                AppError::ConfigError(text::concat2("Proxy config: ", e.as_str())),
            ),
        }
        if !read_only {
            match config.wallet.validate() {
                Ok(_) => {},
                Err(e) => return Err(
                    AppError::ConfigError(text::concat2("Wallet config: ", e.as_str())),
                ),
            }
            match validate_wallets(&config.wallets) {
                Ok(_) => {},
                Err(e) => return Err(
                    AppError::ConfigError(text::concat2("Wallet config: ", e.as_str())),
                ),
            }
        }
        match config.security.validate() {
            Ok(_) => {},
            Err(e) => return Err(
                AppError::ConfigError(text::concat2("Security config: ", e.as_str())),
            ),
        }
        match config.mining.validate() {
            Ok(_) => {},
            Err(e) => return Err(
                AppError::ConfigError(text::concat2("Mining config: ", e.to_string().as_str())),
            ),
        }
        if !read_only {
            match config.lane.validate() {
                Ok(_) => {},
                Err(e) => return Err(
                    AppError::ConfigError(text::concat2("Lane config: ", e.as_str())),
                ),
            }
        }
        match config.gas.validate() {
            Ok(_) => {},
            Err(e) => return Err(AppError::ConfigError(text::concat2("Gas config: ", e.as_str()))),
        }
        match config.retry.validate() {
            Ok(_) => Ok(()),
            Err(e) => Err(AppError::ConfigError(text::concat2("Retry config: ", e.as_str()))),
        }
    }

    /// The EL URL.
    pub fn el_url(&self) -> (r: &str)
        ensures
            r@ == self.proxy.el_url@,
    {
        self.proxy.el_url()
    }

    /// The EL URL alone.
    pub fn to_el_config(&self) -> (r: ElConfig)
        ensures
            r.url@ == self.proxy.el_url@,
    {
        ElConfig { url: String::from_str(self.proxy.el_url()) }
    }

    /// Whether the provider may start with the given number of connected
    /// wallets: without any it can only serve reads.
    pub fn may_start(&self, connected_wallets: usize) -> (r: bool)
        ensures
            r == (self.security.read_only || connected_wallets > 0),
    {
        self.security.is_read_only() || connected_wallets > 0
    }

    /// The wallets to connect to: the primary one, then the further ones.
    pub fn all_wallets(&self) -> (r: Vec<WalletConfig>)
        ensures
            r@ == seq![self.wallet] + self.wallets@,
    {
        let mut out: Vec<WalletConfig> = Vec::new();
        out.push(self.wallet.clone());
        let mut i: usize = 0;
        while i < self.wallets.len()
            invariant
                i <= self.wallets@.len(),
                out@ == seq![self.wallet] + self.wallets@.take(i as int),
            decreases self.wallets@.len() - i,
        {
            out.push(self.wallets[i].clone());
            assert(self.wallets@.take(i + 1) =~= self.wallets@.take(i as int).push(
                self.wallets@[i as int],
            ));
            i += 1;
        }
        assert(self.wallets@.take(i as int) =~= self.wallets@);
        out
    }
}

/// Whether two configurations agree in all parts but the wallets and the lane.
pub open spec fn agree_apart_from_submission(a: AppConfig, b: AppConfig) -> bool {
    &&& a.server == b.server
    &&& a.proxy == b.proxy
    &&& a.security == b.security
    &&& a.mining == b.mining
    &&& a.gas == b.gas
    &&& a.retry == b.retry
}

/// In read-only mode the wallet and lane settings do not matter: configurations
/// that agree in all other parts are accepted or refused alike.
pub proof fn read_only_ignores_submission_settings(a: AppConfig, b: AppConfig)
    requires
        a.security.read_only,
        agree_apart_from_submission(a, b),
    ensures
        a.flaw() == b.flaw(),
{
}

/// Read-only mode never makes a configuration invalid: what is accepted for
/// reading and writing is accepted for reading only.
pub proof fn read_only_accepts_what_read_write_accepts(
    read_write: AppConfig,
    read_only: AppConfig,
)
    requires
        read_write.flaw() is None,
        read_only.server == read_write.server,
        read_only.proxy == read_write.proxy,
        read_only.mining == read_write.mining,
        read_only.gas == read_write.gas,
        read_only.retry == read_write.retry,
        read_only.security.read_only,
    ensures
        read_only.flaw() is None,
{
}

/// A configuration for writing is accepted exactly where every part is.
pub proof fn read_write_needs_every_part(config: AppConfig)
    requires
        !config.security.read_only,
    ensures
        config.flaw() is None <==> {
            &&& config.server.flaw() is None
            &&& config.proxy.flaw() is None
            &&& config.wallet.flaw() is None
            &&& forall|i: int|
                0 <= i < config.wallets@.len() ==> (#[trigger] config.wallets@[i]).flaw() is None
            &&& config.mining.flaw() is None
            &&& config.lane.flaw() is None
            &&& config.gas.flaw() is None
            &&& config.retry.flaw() is None
        },
{
    let flaws = config.wallets@.map_values(|w: WalletConfig| w.flaw());
    reasons::first_reason_is_none(flaws);
    assert forall|i: int|
        wallets_flaw(config.wallets@) is None && 0 <= i < config.wallets@.len() implies (
    #[trigger] config.wallets@[i]).flaw() is None by {
        assert(flaws[i] == config.wallets@[i].flaw());
    }
}

/// A read-only configuration is accepted exactly where the parts that serve reads
/// are: wallets and lane are not looked at.
pub proof fn read_only_needs_the_parts_that_read(config: AppConfig)
    requires
        config.security.read_only,
    ensures
        config.flaw() is None <==> {
            &&& config.server.flaw() is None
            &&& config.proxy.flaw() is None
            &&& config.mining.flaw() is None
            &&& config.gas.flaw() is None
            &&& config.retry.flaw() is None
        },
{
}

/// The reason for refusing a configuration names the flawed part, and the parts
/// are looked at in the order server, proxy, wallets, mining, lane, gas, retry:
/// the first flawed one gives the reason, whatever is wrong with later ones.
pub proof fn the_first_flawed_part_gives_the_reason(config: AppConfig)
    ensures
        config.server.flaw() matches Some(m) ==> config.flaw() == Some("Server config: "@ + m),
        config.server.flaw() is None ==> {
            &&& config.proxy.flaw() matches Some(m) ==> config.flaw() == Some(
                "Proxy config: "@ + m,
            )
            &&& config.proxy.flaw() is None && !config.security.read_only
                ==> (config.wallet.flaw() matches Some(m) ==> config.flaw() == Some(
                "Wallet config: "@ + m,
            ))
            &&& config.proxy.flaw() is None && config.security.read_only ==> {
                &&& config.mining.flaw() matches Some(m) ==> config.flaw() == Some(
                    "Mining config: "@ + ("Configuration error: "@ + m),
                )
                &&& config.mining.flaw() is None ==> {
                    &&& config.gas.flaw() matches Some(m) ==> config.flaw() == Some(
                        "Gas config: "@ + m,
                    )
                    &&& config.gas.flaw() is None ==> (config.retry.flaw() matches Some(m)
                        ==> config.flaw() == Some("Retry config: "@ + m))
                }
            }
        },
{
}

/// A wallet that is flawed is named in a configuration for writing, wherever it
/// stands among the wallets: no wallet escapes validation.
pub proof fn every_wallet_is_validated(config: AppConfig, i: int)
    requires
        !config.security.read_only,
        0 <= i < config.wallets@.len(),
        config.wallets@[i].flaw() is Some,
    ensures
        config.flaw() is Some,
{
    read_write_needs_every_part(config);
}

/// Each environment variable overrides the one setting that is documented for it,
/// and there are no others.
pub proof fn variables_override_their_settings(variable: Seq<char>, setting: Seq<char>)
    ensures
        overrides().contains((variable, setting)) <==> {
            ||| variable == "SERVER_HOST"@ && setting == "server.host"@
            ||| variable == "SERVER_PORT"@ && setting == "server.port"@
            ||| variable == "EL_URL"@ && setting == "proxy.el_url"@
            ||| variable == "EL_WS_URL"@ && setting == "proxy.el_ws_url"@
            ||| variable == "PROXY_TIMEOUT_SECONDS"@ && setting == "proxy.timeout_seconds"@
            ||| variable == "PROXY_MAX_RETRIES"@ && setting == "proxy.max_retries"@
            ||| variable == "PROXY_RETRY_DELAY_MS"@ && setting == "proxy.retry_delay_ms"@
            ||| variable == "WALLET_DAEMON_URI"@ && setting == "wallet.wallet_daemon_uri"@
            ||| variable == "WALLET_TO_ADDRESS"@ && setting == "wallet.to_address"@
            ||| variable == "SECURITY_ENABLE_WHITELIST"@ && setting == "security.enable_whitelist"@
            ||| variable == "READ_ONLY"@ && setting == "security.read_only"@
            ||| variable == "TX_ID_PREFIX"@ && setting == "mining.tx_id_prefix"@
            ||| variable == "MINING_TIMEOUT_SECONDS"@ && setting == "mining.timeout_seconds"@
            ||| variable == "IGRA_LANE_ID"@ && setting == "lane.lane_id"@
            ||| variable == "LANE_ENFORCEMENT_DISABLED"@ && setting == "lane.enforcement_disabled"@
            ||| variable == "MIN_PROTOCOL_FEE_PER_GAS_GWEI"@ && setting == "gas.min_protocol_fee_per_gas_gwei"@
            ||| variable == "RETRY_MAX_ATTEMPTS"@ && setting == "retry.max_attempts"@
            ||| variable == "RETRY_INITIAL_DELAY_MS"@ && setting == "retry.initial_delay_ms"@
            ||| variable == "RETRY_MAX_DELAY_MS"@ && setting == "retry.max_delay_ms"@
        },
{
    let all = overrides();
    assert(all.len() == 19);
    assert(all[0] == ("SERVER_HOST"@, "server.host"@));
    assert(all[1] == ("SERVER_PORT"@, "server.port"@));
    assert(all[2] == ("EL_URL"@, "proxy.el_url"@));
    assert(all[3] == ("EL_WS_URL"@, "proxy.el_ws_url"@));
    assert(all[4] == ("PROXY_TIMEOUT_SECONDS"@, "proxy.timeout_seconds"@));
    assert(all[5] == ("PROXY_MAX_RETRIES"@, "proxy.max_retries"@));
    assert(all[6] == ("PROXY_RETRY_DELAY_MS"@, "proxy.retry_delay_ms"@));
    assert(all[7] == ("WALLET_DAEMON_URI"@, "wallet.wallet_daemon_uri"@));
    assert(all[8] == ("WALLET_TO_ADDRESS"@, "wallet.to_address"@));
    assert(all[9] == ("SECURITY_ENABLE_WHITELIST"@, "security.enable_whitelist"@));
    assert(all[10] == ("READ_ONLY"@, "security.read_only"@));
    assert(all[11] == ("TX_ID_PREFIX"@, "mining.tx_id_prefix"@));
    assert(all[12] == ("MINING_TIMEOUT_SECONDS"@, "mining.timeout_seconds"@));
    assert(all[13] == ("IGRA_LANE_ID"@, "lane.lane_id"@));
    assert(all[14] == ("LANE_ENFORCEMENT_DISABLED"@, "lane.enforcement_disabled"@));
    assert(all[15] == ("MIN_PROTOCOL_FEE_PER_GAS_GWEI"@, "gas.min_protocol_fee_per_gas_gwei"@));
    assert(all[16] == ("RETRY_MAX_ATTEMPTS"@, "retry.max_attempts"@));
    assert(all[17] == ("RETRY_INITIAL_DELAY_MS"@, "retry.initial_delay_ms"@));
    assert(all[18] == ("RETRY_MAX_DELAY_MS"@, "retry.max_delay_ms"@));
}

} // verus!
