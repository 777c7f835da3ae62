[package]
name = "lnd_exporter"
version = "0.1.0"
edition = "2021"
publish = false

[dependencies]
hex = "0.4"
clap = { version = "3", features = ["derive"] }
env_logger = "0.9"
hyper = { version = "0.14", features = ["server", "http1", "tcp"] }
log = "0.4"
prometheus = "0.13"
prost = "0.11"
thiserror = "1"
tokio = { version = "1", features = ["rt", "macros", "fs", "io-util", "sync", "net"] }
tonic = { version = "0.9", features = ["tls"] }
