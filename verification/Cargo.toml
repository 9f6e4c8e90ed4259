[package]
name = "socks_tunnel"
version = "0.1.0"
edition = "2021"
publish = false

[dependencies]
anyhow = "1"
futures = "0.3"
pretty_env_logger = "*"
structopt = "0.3"
thrussh = "*"
thrussh-keys = "*"
tokio = { version = "1", features = ["full"] }
trust-dns-resolver = "*"
