[package]
name = "cimishi"
version = "0.1.0"
edition = "2021"
publish = false

[dependencies]
glob = "0.3"
toml = "0.8"
serde = { version = "1", features = ["derive"] }
serde_yaml = "0.9"
serde_json = "1"
chrono = "0.4"
dirs = "5"
memory-stats = "1"
oxigraph = { version = "0.4", default-features = false }
async_zip = { version = "0.0.17", features = ["tokio", "deflate"] }
async-compression = { version = "0.4", features = ["tokio", "gzip"] }
tokio = { version = "1", features = ["full"] }
tokio-util = { version = "0.7", features = ["compat"] }
futures = "0.3"
bytes = "1"
url = "2"
object_store = { version = "0.11", features = ["aws", "azure", "gcp"] }
reqwest = { version = "0.12", default-features = false, features = ["rustls-tls"] }
clap = { version = "4", features = ["derive"] }
dialoguer = "0.11"
console = "0.15"
anyhow = "1"
thiserror = "1"
tracing = "0.1"
tracing-subscriber = { version = "0.3", features = ["env-filter"] }
async-trait = "0.1"
