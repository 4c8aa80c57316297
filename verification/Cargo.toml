[package]
name = "data_poller"
version = "0.1.0"
edition = "2021"
publish = false

[dependencies]
url = "=2.5.8"
scraper = "=0.29.0"
serde = { version = "=1.0.229", features = ["derive"] }
serde_yaml = "=0.9.34"
thiserror = "=2.0.21"
async-trait = "=0.1.92"
tokio = { version = "=1.54.1", features = ["rt-multi-thread", "macros", "time", "signal", "sync"] }
reqwest = { version = "=0.12.28", default-features = false, features = ["rustls-tls"] }
object_store = { version = "=0.13.2", features = ["http"] }
datafusion = { version = "=55.2.0", default-features = false, features = ["parquet"] }
