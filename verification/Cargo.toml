[package]
name = "igra_rpc_provider"
version = "0.1.0"
edition = "2021"
publish = false

[dependencies]
alloy = { version = "=1.8.3", default-features = false, features = ["consensus", "rlp"] }
axum = { version = "=0.8.9", default-features = false, features = ["http1", "json", "tokio", "ws"] }
config = { version = "=0.14.1", default-features = false, features = ["toml"] }
ethers = { version = "=2.0.14", default-features = false }
flate2 = "=1.1.10"
futures-util = "0.3"
hex = "=0.4.3"
once_cell = "1"
reqwest = { version = "=0.11.27", default-features = false, features = ["json"] }
serde = { version = "1", features = ["derive"] }
serde_json = "=1.0.154"
thiserror = "1"
tokio = { version = "1", features = ["macros", "net", "rt-multi-thread", "sync", "time"] }
tokio-tungstenite = "0.29"
tracing = "0.1"
tracing-subscriber = { version = "0.3", default-features = false, features = ["env-filter", "fmt"] }
uuid = { version = "=1.29.0", features = ["v4"] }
