[package]
name = "etherip"
version = "0.1.0"
edition = "2021"
publish = false

[dependencies]
anyhow = "1"
clap = { version = "4", features = ["derive"] }
futures = "0.3"
libc = "0.2"
log = "0.4"
nix = { version = "*", features = ["ioctl"] }
parking_lot = "0.12"
serde = { version = "1", features = ["derive"] }
syslog = "*"
tokio = { version = "1", features = ["full"] }
toml = "*"
