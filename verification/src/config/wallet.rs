//! Wallet daemon configuration.

use crate::text;
use vstd::prelude::*;
use vstd::string::*;

verus! {

/// Wallet daemon configuration.
#[derive(Debug, PartialEq, Eq)]
pub struct WalletConfig {
    /// URI of the wallet daemon.
    pub wallet_daemon_uri: String,
    /// Address to send to; empty where the daemon is to create one.
    pub to_address: String,
}

impl Default for WalletConfig {
    fn default() -> (r: Self)
        ensures
            r.wallet_daemon_uri@.len() == 0,
            r.to_address@.len() == 0,
    {
        WalletConfig { wallet_daemon_uri: String::new(), to_address: String::new() }
    }
}

impl Clone for WalletConfig {
    fn clone(&self) -> (r: Self)
        ensures
            r == *self,
    {
        WalletConfig {
            wallet_daemon_uri: self.wallet_daemon_uri.clone(),
            to_address: self.to_address.clone(),
        }
    }
}

impl WalletConfig {
    /// Why the configuration is refused; `None` where it is accepted.
    pub open spec fn flaw(self) -> Option<Seq<char>> {
        if self.wallet_daemon_uri@.len() == 0 {
            Some("Wallet daemon URI cannot be empty"@)
        } else if !"http://"@.is_prefix_of(self.wallet_daemon_uri@) && !"https://"@.is_prefix_of(
            self.wallet_daemon_uri@,
        ) {
            Some("Wallet daemon URI must start with http:// or https://"@)
        } else {
            None
        }
    }

    /// Creates a configuration with a specific daemon and address.
    pub fn new(wallet_daemon_uri: String, to_address: String) -> (r: Self)
        ensures
            r.wallet_daemon_uri == wallet_daemon_uri,
            r.to_address == to_address,
    {
        WalletConfig { wallet_daemon_uri, to_address }
    }

    /// Validates the wallet configuration.
    pub fn validate(&self) -> (r: Result<(), String>)
        ensures
            match r {
                Ok(_) => self.flaw() is None,
                Err(m) => self.flaw() == Some(m@),
            },
    {
        if self.wallet_daemon_uri.as_str().unicode_len() == 0 {
            return Err(String::from_str("Wallet daemon URI cannot be empty"));
        }
        if !text::starts_with(self.wallet_daemon_uri.as_str(), "http://") && !text::starts_with(
            self.wallet_daemon_uri.as_str(),
            "https://",
        ) {
            return Err(
                String::from_str("Wallet daemon URI must start with http:// or https://"),
            );
        }
        Ok(())
    }
}

/// Every daemon is accepted whose URI has the scheme for HTTP, with or without
/// TLS, and none with another; the address to send to may be left out.
pub proof fn accepted_daemons_speak_http(config: WalletConfig, rest: Seq<char>)
    ensures
        config.wallet_daemon_uri@ == "http://"@ + rest ==> config.flaw() is None,
        config.wallet_daemon_uri@ == "https://"@ + rest ==> config.flaw() is None,
        config.flaw() is None ==> config.wallet_daemon_uri@.len() >= 7
            && config.wallet_daemon_uri@.take(4) == "http"@,
{
    reveal_strlit("http://");
    reveal_strlit("https://");
    reveal_strlit("http");
    let uri = config.wallet_daemon_uri@;
    assert(("http://"@ + rest).subrange(0, 7) =~= "http://"@);
    assert(("https://"@ + rest).subrange(0, 8) =~= "https://"@);
    if config.flaw() is None {
        if "http://"@.is_prefix_of(uri) {
            assert(uri.take(4) =~= uri.subrange(0, 7).take(4));
            assert("http://"@.take(4) =~= "http"@);
        } else {
            assert(uri.take(4) =~= uri.subrange(0, 8).take(4));
            assert("https://"@.take(4) =~= "http"@);
        }
    }
}

} // verus!
