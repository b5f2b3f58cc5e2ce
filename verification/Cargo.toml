[package]
name = "plugin_host"
version = "0.1.0"
edition = "2021"
publish = false

[dependencies]
anyhow = "=1.0.104"
argon2 = "0.5"
extism = { version = "=1.13.0", default-features = false }
extism-pdk = "1"
rand = "=0.8.8"
reqwest = "=0.12.28"
rusqlite = "=0.41.0"
serde = { version = "=1.0.229", features = ["derive"] }
serde_json = "=1.0.154"
tokio = { version = "=1.54.1", features = ["full"] }
tracing = "=0.1.44"
tracing-subscriber = { version = "=0.3.23", features = ["env-filter"] }
wasmparser = "=0.262.0"
wasmtime = { version = "=37.0.3", default-features = false }
