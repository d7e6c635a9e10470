//! Configuration of the provider, one module per concern.

pub mod app;
pub mod gas;
pub mod igra;
pub mod lane;
pub mod mining;
pub mod proxy;
pub mod retry;
pub mod security;
pub mod server;
pub mod wallet;

pub use self::app::{AppConfig, ElConfig};
pub use self::gas::GasConfig;
pub use self::igra::IgraConfig;
pub use self::lane::LaneConfig;
pub use self::mining::MiningConfig;
pub use self::proxy::ProxyConfig;
pub use self::retry::RetryConfig;
pub use self::security::SecurityConfig;
pub use self::server::ServerConfig;
pub use self::wallet::WalletConfig;
