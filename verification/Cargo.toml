[package]
name = "prism"
version = "0.1.0"
edition = "2021"
publish = false

[dependencies]
anyhow = "=1.0.104"
bincode = { version = "=2.0.1", features = ["serde"] }
clap = { version = "=4.6.7", features = ["derive"] }
dirs = "=6.0.0"
futures-util = "=0.3.34"
hmac = "0.13"
hostname = "=0.4.2"
quinn = { version = "=0.11.12", default-features = false, features = ["runtime-tokio", "rustls-ring", "log"] }
rand = "=0.10.3"
rcgen = "=0.13.2"
rtnetlink = "=0.17.0"
rustls = { version = "=0.23.46", default-features = false, features = ["ring", "std", "logging", "tls12"] }
serde = { version = "=1.0.229", features = ["derive"] }
sha2 = "0.11"
socket2 = { version = "=0.5.10", features = ["all"] }
spake2 = "=0.4.0"
stunclient = "=0.4.2"
tokio = { version = "=1.54.1", features = ["full"] }
tokio-tun = "=0.13.2"
