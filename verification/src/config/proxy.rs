//! Configuration of the execution layer proxy.

use crate::outside;
use crate::text;
use std::time::Duration;
use vstd::prelude::*;
use vstd::string::*;

verus! {

/// Request timeout in seconds where the configuration names none.
pub const DEFAULT_TIMEOUT_SECONDS: u64 = 30;

/// Number of retries where the configuration names none.
pub const DEFAULT_MAX_RETRIES: u32 = 3;

/// Retry delay in milliseconds where the configuration names none.
pub const DEFAULT_RETRY_DELAY_MS: u64 = 1000;

/// The longest accepted request timeout, in seconds.
pub const MAX_TIMEOUT_SECONDS: u64 = 300;

/// The largest accepted number of retries.
pub const MAX_RETRIES: u32 = 10;

/// The shortest accepted retry delay, in milliseconds.
pub const MIN_RETRY_DELAY_MS: u64 = 10;

/// The longest accepted retry delay, in milliseconds.
pub const MAX_RETRY_DELAY_MS: u64 = 10_000;

/// Nanoseconds in a second.
pub const NANOS_PER_SECOND: u128 = 1_000_000_000;

/// Nanoseconds in a millisecond.
pub const NANOS_PER_MILLI: u128 = 1_000_000;

/// The longest representable time span, in nanoseconds.
pub const MAX_SPAN_NANOS: u128 = 18_446_744_073_709_551_615_999_999_999;

/// Whether a character ends the authority of a URL.
pub open spec fn ends_authority(c: char) -> bool {
    c == '/' || c == '?' || c == '#'
}

/// Whether a character closes a part of an authority in which a colon marks no
/// port: the user information, or the brackets of an IPv6 address.
pub open spec fn closes_part(c: char) -> bool {
    c == '@' || c == ']'
}

/// Position of the first character of `s` at or behind `from` that ends the
/// authority.
pub open spec fn authority_end(s: Seq<char>, from: int) -> int
    decreases s.len() - from,
{
    if from < 0 || from >= s.len() || ends_authority(s[from]) {
        from
    } else {
        authority_end(s, from + 1)
    }
}

/// Whether the character at `i` is the colon before the port of an authority.
pub open spec fn marks_port(authority: Seq<char>, i: int) -> bool {
    &&& authority[i] == ':'
    &&& forall|j: int| i < j < authority.len() ==> !closes_part(#[trigger] authority[j])
}

/// Position of the colon before the port, at or behind `from`; the length of the
/// authority where it names no port.
pub open spec fn host_end(authority: Seq<char>, from: int) -> int
    decreases authority.len() - from,
{
    if from < 0 || from >= authority.len() || marks_port(authority, from) {
        from
    } else {
        host_end(authority, from + 1)
    }
}

/// A URL without its scheme.
pub open spec fn without_scheme(url: Seq<char>) -> Seq<char> {
    if "http://"@.is_prefix_of(url) {
        url.skip(7)
    } else {
        text::without_prefix(url, "https://"@)
    }
}

/// What stands between the scheme and the path of a URL.
pub open spec fn authority_of(url: Seq<char>) -> Seq<char> {
    without_scheme(url).take(authority_end(without_scheme(url), 0))
}

/// The host of a URL, with the user information where there is one: its
/// authority without the port.
pub open spec fn host_of(url: Seq<char>) -> Seq<char> {
    authority_of(url).take(host_end(authority_of(url), 0))
}

/// The WebSocket URL that goes with an HTTP URL: the same host, on port 8546.
pub open spec fn derived_ws_url(url: Seq<char>) -> Seq<char> {
    "ws://"@ + host_of(url) + ":8546"@
}

/// Configuration of the execution layer proxy.
#[derive(Debug, Clone, PartialEq, Eq)]
pub struct ProxyConfig {
    /// URL to which requests are forwarded.
    pub el_url: String,
    /// WebSocket URL for subscriptions; derived from `el_url` where absent.
    pub el_ws_url: Option<String>,
    /// Request timeout in seconds.
    pub timeout_seconds: u64,
    /// Maximum retries for failed requests.
    pub max_retries: u32,
    /// Retry delay in milliseconds.
    pub retry_delay_ms: u64,
}

impl Default for ProxyConfig {
    fn default() -> (r: Self)
        ensures
            r.el_url@.len() == 0,
            r.el_ws_url is None,
            r.timeout_seconds == 0,
            r.max_retries == 0,
            r.retry_delay_ms == 0,
    {
        ProxyConfig {
            el_url: String::new(),
            el_ws_url: None,
            timeout_seconds: 0,
            max_retries: 0,
            retry_delay_ms: 0,
        }
    }
}

/// Number of characters of the host at the start of a URL without scheme.
fn host_length(rest: &str) -> (r: usize)
    ensures
        r <= rest@.len(),
        r <= authority_end(rest@, 0) <= rest@.len(),
        r == host_end(rest@.take(authority_end(rest@, 0)), 0),
{
    let chars = text::chars_of(rest);
    let mut end: usize = 0;
    let mut closed: usize = 0;
    while end < chars.len() && chars[end] != '/' && chars[end] != '?' && chars[end] != '#'
        invariant
            chars@ == rest@,
            closed <= end <= chars@.len(),
            authority_end(rest@, end as int) == authority_end(rest@, 0),
            closed > 0 ==> closes_part(chars@[closed - 1]),
            forall|j: int| closed <= j < end ==> !closes_part(#[trigger] chars@[j]),
        decreases chars@.len() - end,
    {
        if chars[end] == '@' || chars[end] == ']' {
            closed = end + 1;
        }
        end += 1;
    }
    let ghost authority = rest@.take(authority_end(rest@, 0));
    let mut i: usize = 0;
    while i < end && (i < closed || chars[i] != ':')
        invariant
            chars@ == rest@,
            i <= end <= chars@.len(),
            closed <= end,
            authority == rest@.take(end as int),
            closed > 0 ==> closes_part(authority[closed - 1]),
            forall|j: int| closed <= j < end ==> !closes_part(#[trigger] authority[j]),
            host_end(authority, i as int) == host_end(authority, 0),
        decreases end - i,
    {
        i += 1;
    }
    i
}

impl ProxyConfig {
    /// Why the configuration is refused; `None` where it is accepted.
    pub open spec fn flaw(self) -> Option<Seq<char>> {
        if self.el_url@.len() == 0 {
            Some("EL URL cannot be empty"@)
        } else if !"http://"@.is_prefix_of(self.el_url@) && !"https://"@.is_prefix_of(
            self.el_url@,
        ) {
            Some("EL URL must start with http:// or https://"@)
        } else if self.timeout_seconds == 0 || self.timeout_seconds > MAX_TIMEOUT_SECONDS {
            Some(
                "Timeout must be between 1-300 seconds, got "@ + text::decimal_text(
                    self.timeout_seconds as nat,
                ),
            )
        } else if self.max_retries > MAX_RETRIES {
            Some("Max retries must be <= 10, got "@ + text::decimal_text(self.max_retries as nat))
        } else if self.retry_delay_ms < MIN_RETRY_DELAY_MS || self.retry_delay_ms
            > MAX_RETRY_DELAY_MS {
            Some(
                "Retry delay must be between 10-10000ms, got "@ + text::decimal_text(
                    self.retry_delay_ms as nat,
                ) + "ms"@,
            )
        } else {
            None
        }
    }

    /// The nanoseconds that a request with all its retries can take, as far as
    /// a time span reaches.
    pub open spec fn total_nanos(self) -> int {
        let timeout = self.timeout_seconds * NANOS_PER_SECOND;
        let delay = self.retry_delay_ms * NANOS_PER_MILLI;
        let total = timeout + delay * self.max_retries + timeout * self.max_retries;
        if total > MAX_SPAN_NANOS {
            MAX_SPAN_NANOS as int
        } else {
            total
        }
    }

    /// Creates a configuration with default values.
    pub fn new() -> (r: Self)
        ensures
            r.el_url@.len() == 0,
            r.el_ws_url is None,
            r.timeout_seconds == DEFAULT_TIMEOUT_SECONDS,
            r.max_retries == DEFAULT_MAX_RETRIES,
            r.retry_delay_ms == DEFAULT_RETRY_DELAY_MS,
    {
        ProxyConfig::with_el_url(String::new())
    }

    /// Creates a configuration with a specific EL URL.
    pub fn with_el_url(el_url: String) -> (r: Self)
        ensures
            r.el_url == el_url,
            r.el_ws_url is None,
            r.timeout_seconds == DEFAULT_TIMEOUT_SECONDS,
            r.max_retries == DEFAULT_MAX_RETRIES,
            r.retry_delay_ms == DEFAULT_RETRY_DELAY_MS,
    {
        ProxyConfig {
            el_url,
            el_ws_url: None,
            timeout_seconds: DEFAULT_TIMEOUT_SECONDS,
            max_retries: DEFAULT_MAX_RETRIES,
            retry_delay_ms: DEFAULT_RETRY_DELAY_MS,
        }
    }

    /// Creates a configuration with all parameters.
    pub fn with_settings(
        el_url: String,
        timeout_seconds: u64,
        max_retries: u32,
        retry_delay_ms: u64,
    ) -> (r: Self)
        ensures
            r.el_url == el_url,
            r.el_ws_url is None,
            r.timeout_seconds == timeout_seconds,
            r.max_retries == max_retries,
            r.retry_delay_ms == retry_delay_ms,
    {
        ProxyConfig { el_url, el_ws_url: None, timeout_seconds, max_retries, retry_delay_ms }
    }

    /// Validates the proxy configuration.
    pub fn validate(&self) -> (r: Result<(), String>)
        ensures
            match r {
                Ok(_) => self.flaw() is None,
                Err(m) => self.flaw() == Some(m@),
            },
    {
        if self.el_url.as_str().unicode_len() == 0 {
            return Err(String::from_str("EL URL cannot be empty"));
        }
        if !text::starts_with(self.el_url.as_str(), "http://") && !text::starts_with(
            self.el_url.as_str(),
            "https://",
        ) {
            return Err(String::from_str("EL URL must start with http:// or https://"));
        }
        if self.timeout_seconds == 0 || self.timeout_seconds > MAX_TIMEOUT_SECONDS {
            return Err(
                text::concat2(
                    "Timeout must be between 1-300 seconds, got ",
                    text::decimal(self.timeout_seconds as u128).as_str(),
                ),
            );
        }
        if self.max_retries > MAX_RETRIES {
            return Err(
                text::concat2(
                    "Max retries must be <= 10, got ",
                    text::decimal(self.max_retries as u128).as_str(),
                ),
            );
        }
        if self.retry_delay_ms < MIN_RETRY_DELAY_MS || self.retry_delay_ms > MAX_RETRY_DELAY_MS {
            return Err(
                text::concat3(
                    "Retry delay must be between 10-10000ms, got ",
                    text::decimal(self.retry_delay_ms as u128).as_str(),
                    "ms",
                ),
            );
        }
        Ok(())
    }

    /// The timeout as a `Duration`.
    pub fn timeout_duration(&self) -> (r: Duration)
        ensures
            r == outside::duration_of(self.timeout_seconds, 0),
    {
        outside::duration(self.timeout_seconds, 0)
    }

    /// The retry delay as a `Duration`.
    pub fn retry_delay_duration(&self) -> (r: Duration)
        ensures
            r == outside::duration_of(
                self.retry_delay_ms / 1000,
                ((self.retry_delay_ms % 1000) * 1_000_000) as u32,
            ),
    {
        let millis: u32 = (self.retry_delay_ms % 1000) as u32;
        outside::duration(self.retry_delay_ms / 1000, millis * 1_000_000)
    }

    /// The EL URL.
    pub fn el_url(&self) -> (r: &str)
        ensures
            r@ == self.el_url@,
    {
        self.el_url.as_str()
    }

    /// The WebSocket URL of the EL: as configured, or else derived from the EL
    /// URL.
    pub fn el_ws_url(&self) -> (r: String)
        ensures
            r@ == match self.el_ws_url {
                Some(url) => url@,
                None => derived_ws_url(self.el_url@),
            },
    {
        match &self.el_ws_url {
            Some(url) => url.clone(),
            None => {
                proof {
                    reveal_strlit("http://");
                }
                let rest = if text::starts_with(self.el_url.as_str(), "http://") {
                    text::skip_chars(self.el_url.as_str(), 7)
                } else {
                    text::strip_prefix(self.el_url.as_str(), "https://")
                };
                let end: usize = host_length(rest);
                let host = rest.substring_char(0, end);
                assert(host@ =~= host_of(self.el_url@));
                text::concat3("ws://", host, ":8546")
            },
        }
    }

    /// Whether retries are enabled.
    pub fn retries_enabled(&self) -> (r: bool)
        ensures
            r == (self.max_retries > 0),
    {
        self.max_retries > 0
    }

    /// The total maximum time including all retries.
    pub fn max_total_time(&self) -> (r: Duration)
        ensures
            r == outside::duration_of(
                (self.total_nanos() / (NANOS_PER_SECOND as int)) as u64,
                (self.total_nanos() % (NANOS_PER_SECOND as int)) as u32,
            ),
    {
        let timeout: u128 = self.timeout_seconds as u128 * NANOS_PER_SECOND;
        let delay: u128 = self.retry_delay_ms as u128 * NANOS_PER_MILLI;
        let retries: u128 = self.max_retries as u128;
        assert(delay * retries <= 0xffff_ffff_ffff_ffff * 1_000_000 * 0xffff_ffff)
            by (nonlinear_arith)
            requires
                delay <= 0xffff_ffff_ffff_ffff * 1_000_000,
                retries <= 0xffff_ffff,
        ;
        assert(timeout * retries <= 0xffff_ffff_ffff_ffff * 1_000_000_000 * 0xffff_ffff)
            by (nonlinear_arith)
            requires
                timeout <= 0xffff_ffff_ffff_ffff * 1_000_000_000,
                retries <= 0xffff_ffff,
        ;
        let total: u128 = timeout + delay * retries + timeout * retries;
        let span: u128 = if total > MAX_SPAN_NANOS {
            MAX_SPAN_NANOS
        } else {
            total
        };
        assert(span == self.total_nanos());
        outside::duration((span / NANOS_PER_SECOND) as u64, (span % NANOS_PER_SECOND) as u32)
    }
}

/// The authority ends at the first character that ends it.
proof fn authority_ends_first(s: Seq<char>, from: int, end: int)
    requires
        0 <= from <= end <= s.len(),
        forall|i: int| from <= i < end ==> !ends_authority(#[trigger] s[i]),
        end < s.len() ==> ends_authority(s[end]),
    ensures
        authority_end(s, from) == end,
    decreases end - from,
{
    if from < end {
        authority_ends_first(s, from + 1, end);
    }
}

/// The host ends at the first colon that marks a port.
proof fn host_ends_first(authority: Seq<char>, from: int, end: int)
    requires
        0 <= from <= end <= authority.len(),
        forall|i: int| from <= i < end ==> !marks_port(authority, i),
        end < authority.len() ==> marks_port(authority, end),
    ensures
        host_end(authority, from) == end,
    decreases end - from,
{
    if from < end {
        host_ends_first(authority, from + 1, end);
    }
}

/// A URL without its scheme is what stands behind the scheme.
proof fn scheme_is_dropped(scheme: Seq<char>, rest: Seq<char>)
    requires
        scheme == "http://"@ || scheme == "https://"@,
    ensures
        without_scheme(scheme + rest) == rest,
{
    reveal_strlit("http://");
    reveal_strlit("https://");
    let url = scheme + rest;
    assert(url.subrange(0, scheme.len() as int) =~= scheme);
    assert(url.skip(scheme.len() as int) =~= rest);
    if scheme == "https://"@ {
        assert(url[4] == 's');
        if "http://"@.is_prefix_of(url) {
            assert(url.subrange(0, 7)[4] == url[4]);
        }
    }
}

/// The derived WebSocket URL leads to the host of the EL URL, whatever scheme,
/// port and path that has. The host may be a name or an address, in brackets
/// where it holds colons, with user information in front.
pub proof fn derived_urls_keep_the_host(
    scheme: Seq<char>,
    host: Seq<char>,
    port: Seq<char>,
    path: Seq<char>,
)
    requires
        scheme == "http://"@ || scheme == "https://"@,
        forall|i: int| 0 <= i < host.len() ==> !ends_authority(#[trigger] host[i]),
        forall|i: int| 0 <= i < host.len() ==> !marks_port(host, i),
        forall|i: int|
            0 <= i < port.len() ==> !ends_authority(#[trigger] port[i]) && !closes_part(port[i]),
        path.len() > 0 ==> ends_authority(path[0]),
    ensures
        derived_ws_url(scheme + (host + seq![':'] + port + path)) == "ws://"@ + host + ":8546"@,
        derived_ws_url(scheme + (host + path)) == "ws://"@ + host + ":8546"@,
{
    let authority = host + seq![':'] + port;
    let rest = authority + path;
    let url = scheme + rest;
    scheme_is_dropped(scheme, rest);
    authority_ends_first(rest, 0, authority.len() as int);
    assert(authority_of(url) =~= authority);
    assert forall|i: int| 0 <= i < host.len() implies !marks_port(authority, i) by {
        if authority[i] == ':' {
            assert(!marks_port(host, i));
            let j = choose|j: int| i < j < host.len() && closes_part(#[trigger] host[j]);
            assert(closes_part(authority[j]));
        }
    }
    host_ends_first(authority, 0, host.len() as int);
    assert(host_of(url) =~= host);

    let bare = host + path;
    let bare_url = scheme + bare;
    scheme_is_dropped(scheme, bare);
    authority_ends_first(bare, 0, host.len() as int);
    assert(authority_of(bare_url) =~= host);
    host_ends_first(host, 0, host.len() as int);
    assert(host_of(bare_url) =~= host);
}

/// Allowing more retries never shortens the total time.
pub proof fn more_retries_take_longer(fewer: ProxyConfig, more: ProxyConfig)
    requires
        fewer.timeout_seconds == more.timeout_seconds,
        fewer.retry_delay_ms == more.retry_delay_ms,
        fewer.max_retries <= more.max_retries,
    ensures
        fewer.total_nanos() <= more.total_nanos(),
{
    let timeout = fewer.timeout_seconds * NANOS_PER_SECOND;
    let delay = fewer.retry_delay_ms * NANOS_PER_MILLI;
    let a = fewer.max_retries as int;
    let b = more.max_retries as int;
    assert(delay * a <= delay * b && timeout * a <= timeout * b) by (nonlinear_arith)
        requires
            0 <= delay,
            0 <= timeout,
            a <= b,
    ;
}

/// A proxy configuration is accepted exactly where its URL has the scheme for
/// HTTP, with or without TLS, requests wait from one second to five minutes, at
/// most ten retries follow, and the delay between them is from ten milliseconds
/// to ten seconds.
pub proof fn accepted_proxies_are_in_range(config: ProxyConfig, scheme: Seq<char>, rest: Seq<char>)
    requires
        config.el_url@ == scheme + rest,
        scheme == "http://"@ || scheme == "https://"@,
    ensures
        config.flaw() is None <==> 1 <= config.timeout_seconds <= 300 && config.max_retries <= 10
            && 10 <= config.retry_delay_ms <= 10_000,
{
    reveal_strlit("http://");
    reveal_strlit("https://");
    assert((scheme + rest).subrange(0, scheme.len() as int) =~= scheme);
}

/// A URL of another scheme is refused.
pub proof fn other_schemes_are_refused(config: ProxyConfig)
    requires
        config.flaw() is None,
    ensures
        config.el_url@.len() >= 7,
        config.el_url@.take(4) == "http"@,
{
    reveal_strlit("http://");
    reveal_strlit("https://");
    reveal_strlit("http");
    let url = config.el_url@;
    if "http://"@.is_prefix_of(url) {
        assert(url.take(4) =~= url.subrange(0, 7).take(4));
        assert("http://"@.take(4) =~= "http"@);
    } else {
        assert(url.take(4) =~= url.subrange(0, 8).take(4));
        assert("https://"@.take(4) =~= "http"@);
    }
}

/// The total time counts the timeout of every attempt, the first one included,
/// and one delay per retry, as long as a time span can hold it.
pub proof fn every_attempt_counts_in_the_total(config: ProxyConfig)
    ensures
        ({
            let seconds = 1_000_000_000 * config.timeout_seconds;
            let delays = 1_000_000 * config.retry_delay_ms;
            let total = (config.max_retries + 1) * seconds + config.max_retries * delays;
            config.total_nanos() == if total <= 18_446_744_073_709_551_615_999_999_999 {
                total
            } else {
                18_446_744_073_709_551_615_999_999_999int
            }
        }),
{
    let timeout = config.timeout_seconds * NANOS_PER_SECOND;
    let delay = config.retry_delay_ms * NANOS_PER_MILLI;
    let retries = config.max_retries as int;
    assert((retries + 1) * timeout + retries * delay == timeout + delay * retries + timeout
        * retries) by (nonlinear_arith);
}

} // verus!
