[package]
name = "fantrax_mcp"
version = "0.1.1"
edition = "2021"
publish = false

[dependencies]
chrono = "=0.4.45"
serde = { version = "=1.0.229", features = ["derive"] }
serde_json = "=1.0.154"
schemars = "=1.2.3"
rmcp = { version = "=1.8.0", features = ["server", "macros", "transport-streamable-http-server"] }
axum = "=0.8.9"
tokio = { version = "=1.54.1", features = ["macros", "rt-multi-thread", "net"] }
clap = { version = "=4.6.7", features = ["derive"] }
tracing = "=0.1.44"
tracing-subscriber = { version = "=0.3.23", features = ["env-filter"] }
reqwest = { version = "=0.12.28", default-features = false, features = ["json", "rustls-tls"] }
rusqlite = { version = "=0.41.1", features = ["bundled"] }
parking_lot = "=0.13.0"
toml = "=1.1.8"
secrecy = "=0.10.3"
thiserror = "=2.0.21"
mcp-session = "=0.2.0"
