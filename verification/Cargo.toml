[package]
name = "arclightning_backend"
version = "0.1.0"
edition = "2021"
publish = false

[dependencies]
bcrypt = "=0.15.1"
blake2-rfc = "=0.2.18"
futures = "0.3"
hex = "=0.4.3"
hyper = { version = "0.14", features = ["server", "http1", "tcp", "stream"] }
hyper-staticfile = "0.9"
rand = "=0.6.5"
rodio = "0.11"
rpassword = "5"
serde = { version = "1", features = ["derive"] }
serde_derive = "1"
serde_json = "=1.0.154"
tokio = { version = "1", features = ["rt-multi-thread"] }
toml = "0.5"
