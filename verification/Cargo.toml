[package]
name = "bcid"
version = "0.1.0"
edition = "2021"
publish = false

[dependencies]
blockfrost = "=0.2.1"
clap = { version = "=4.6.7", features = ["derive", "env"] }
futures = "=0.3.34"
indicatif = "=0.17.11"
ipfs-api = "=0.16.0"
ipfs-api-backend-hyper = "=0.5.0"
rand = "=0.8.8"
reqwest = { version = "=0.11.27", default-features = false, features = ["json", "rustls-tls"] }
serde = { version = "=1.0.229", features = ["derive"] }
tokio = { version = "=1.54.1", features = ["full"] }

[dev-dependencies]
tempdir = "=0.3.7"
