[package]
name = "atlas_core"
version = "0.1.0"
edition = "2021"
publish = false

[dependencies]
fractional_index = "=2.0.2"
hmac = "=0.12.1"
sha2 = "=0.10.9"
hex = "=0.4.3"
subtle = "=2.6.1"
serde_json = "=1.0.154"
chrono = "=0.4.45"
serde = { version = "1", features = ["derive"] }
tokio = { version = "1", features = ["rt-multi-thread", "macros", "time", "sync", "signal", "net"] }
futures-util = "0.3"
reqwest = { version = "0.12", default-features = false, features = ["json", "rustls-tls"] }
