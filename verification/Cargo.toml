[package]
name = "whisper"
version = "0.1.0"
edition = "2021"
publish = false

[dependencies]
bytes = "=1.12.1"
dashmap = "=6.2.1"
hyper = { version = "=1.12.0", features = ["client", "http1"] }
fastwebsockets = { version = "=0.10.0", features = ["upgrade", "unstable-split"] }
tokio = { version = "=1.54.1", features = ["full"] }
tokio-util = { version = "=0.7.20", features = ["codec", "compat"] }
futures-util = { version = "=0.3.34", features = ["sink"] }
http-body-util = "=0.1.5"
clap = { version = "=4.6.7", features = ["derive", "cargo"] }
log = "=0.4.34"
simplelog = "=0.12.2"
tun2 = { version = "=4.0.0", features = ["async"] }
lwip = "=0.4.0"
nix = { version = "=0.31.3", features = ["term"] }
tokio-rustls = { version = "=0.26.6", default-features = false, features = ["ring"] }
webpki-roots = "=1.0.11"
rustls-pki-types = "=1.15.1"
async-trait = "=0.1.92"
etherparse = "*"
tun-tap = "*"
